//! A timed click dispatcher for a remote UI-automation session.
//!
//! The crate decides; the caller acts. A [`run::Run`] names the next thing to
//! do against the remote session ([`run::Action`]), the caller does it and
//! hands back what came of it ([`run::Reply`]). Nothing here sleeps or talks
//! to the network. The one thing the crate reads for itself is the system
//! clock, and a caller that answers the polls itself replaces that too: a
//! run can be replayed exactly from a list of clock samples and call results.
//!
//! * [`schedule`]: the run duration, the dispatch interval and what one
//!   polling tick calls for.
//! * [`gesture`]: the pointer gesture that one dispatch replays.
//! * [`run`]: the run itself, from connecting to teardown.
//! * [`report`]: the two lines that a successful run prints.
//! * [`laws`]: what holds of every run, proved over the model of [`run`].

mod clock;
pub mod schedule;
pub mod gesture;
pub mod report;
pub mod run;
pub mod laws;
