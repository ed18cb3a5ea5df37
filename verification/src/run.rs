//! One run of the dispatcher, from connecting to teardown.
//!
//! A run is a state machine that never calls the remote session itself. It
//! names the one [`Action`] that is pending; the caller carries it out and
//! answers with a [`Reply`]; [`Run::step`] takes the reply and names the
//! next action. A reply that does not answer the pending action changes
//! nothing.
//!
//! The order of a run that meets no failure:
//! connect, locate the pointer target, then the loop (a dispatch on every
//! tick that fires, a clock poll after every tick), then locate the score
//! readout, read its text, report, close, exit.
//!
//! The loop is entered when the target is located. The run captures the
//! clock's origin there, once, and the first tick is taken at once and
//! observes zero. A pending poll is answered by [`Run::poll`], which reads
//! the system clock against that origin, or by a reply that carries an
//! elapsed time of the caller's choosing.
//!
//! A failed call ends the run at once. Nothing is retried, no further
//! dispatch or poll is asked for and nothing is reported; the session is
//! closed if there is one, and the failure is the run's outcome with its
//! cause as the caller gave it. A failure of that closing call is not
//! reported over the failure that led to it.

use crate::clock::{elapsed_ms, now};
use crate::gesture::{Gesture, GestureView};
use crate::report::{decimal_string, report_lines, texts, Report};
use crate::schedule::{tick_at, Schedule, Tick};
use std::time::Instant;
use vstd::prelude::*;

verus! {

/// What the caller is asked to do next.
#[derive(Clone, Copy, PartialEq, Eq, Debug, Structural)]
pub enum Action {
    /// Establish the remote session.
    Connect,
    /// Wait for the element that the gesture is aimed at. It is resolved
    /// here once and never again.
    LocateTarget,
    /// Send the run's gesture to the remote session, once.
    Dispatch,
    /// Sample the whole milliseconds elapsed since the loop was entered.
    /// [`Run::poll`] does it from the system clock.
    Poll,
    /// Wait for the element that shows the score.
    LocateReadout,
    /// Extract the text of the score readout.
    ReadText,
    /// Print the lines of [`Run::report_lines`].
    Report,
    /// Close the remote session.
    Close,
    /// Nothing is left to do: take the [`Run::outcome`].
    Exit,
}

/// Which call failed.
#[derive(Clone, Copy, PartialEq, Eq, Debug, Structural)]
pub enum FailureKind {
    /// The session could not be established.
    Connection,
    /// A required element never appeared.
    NotFound,
    /// A dispatch of the gesture failed.
    Dispatch,
    /// The text of the readout could not be extracted.
    Read,
    /// The session could not be closed.
    Close,
}

/// The failure that ended a run: which call failed, and the cause exactly as
/// the caller reported it.
#[derive(Clone, PartialEq, Eq, Debug)]
pub struct Failure<E> {
    pub kind: FailureKind,
    pub cause: E,
}

/// What came of the pending action.
#[derive(Debug)]
pub enum Reply<E> {
    /// The call returned without a value.
    Completed,
    /// The clock was sampled: whole milliseconds since the loop was entered.
    Elapsed(u128),
    /// The text that was extracted.
    Text(String),
    /// The call failed.
    Failed(E),
}

/// A reply as the model sees it.
pub enum ReplyView<E> {
    Completed,
    Elapsed(nat),
    Text(Seq<char>),
    Failed(E),
}

impl<E> View for Reply<E> {
    type V = ReplyView<E>;

    open spec fn view(&self) -> ReplyView<E> {
        match self {
            Reply::Completed => ReplyView::Completed,
            Reply::Elapsed(ms) => ReplyView::Elapsed(*ms as nat),
            Reply::Text(text) => ReplyView::Text(text@),
            Reply::Failed(cause) => ReplyView::Failed(*cause),
        }
    }
}

/// The kind of failure that a failed call of `action` is, if `action` is a
/// call that can fail.
pub open spec fn failure_of(action: Action) -> Option<FailureKind> {
    match action {
        Action::Connect => Some(FailureKind::Connection),
        Action::LocateTarget => Some(FailureKind::NotFound),
        Action::Dispatch => Some(FailureKind::Dispatch),
        Action::LocateReadout => Some(FailureKind::NotFound),
        Action::ReadText => Some(FailureKind::Read),
        Action::Close => Some(FailureKind::Close),
        Action::Poll | Action::Report | Action::Exit => None,
    }
}

/// The model of a run.
pub struct RunView<E> {
    /// The run duration, in milliseconds.
    pub duration: nat,
    /// The dispatch interval, in milliseconds.
    pub interval: nat,
    /// The gesture that every dispatch replays.
    pub gesture: GestureView,
    /// The action that the caller is asked to carry out.
    pub pending: Action,
    /// The dispatch counter.
    pub dispatches: nat,
    /// The text of the readout, once it has been read.
    pub readout: Option<Seq<char>>,
    /// The failure that ended the run, if one did.
    pub failure: Option<Failure<E>>,
}

impl<E> RunView<E> {
    /// A run that has not begun: connecting is pending.
    pub open spec fn initial(duration: nat, interval: nat, gesture: GestureView) -> RunView<E> {
        RunView {
            duration,
            interval,
            gesture,
            pending: Action::Connect,
            dispatches: 0,
            readout: None,
            failure: None,
        }
    }

    /// What holds of every run that began as [`RunView::initial`]: the
    /// interval is positive, the counter is zero until the loop is entered,
    /// a readout is held exactly when it was read, and a failure is held
    /// exactly when a call failed.
    pub open spec fn valid(self) -> bool {
        &&& self.interval > 0
        &&& match self.pending {
            Action::Connect | Action::LocateTarget => {
                &&& self.dispatches == 0
                &&& self.readout is None
                &&& self.failure is None
            },
            Action::Dispatch | Action::Poll | Action::LocateReadout | Action::ReadText => {
                &&& self.readout is None
                &&& self.failure is None
            },
            Action::Report => {
                &&& self.readout is Some
                &&& self.failure is None
            },
            Action::Close => match self.failure {
                None => self.readout is Some,
                Some(failure) => {
                    &&& self.readout is None
                    &&& failure.kind != FailureKind::Connection
                    &&& failure.kind != FailureKind::Close
                },
            },
            Action::Exit => match self.failure {
                None => self.readout is Some,
                Some(failure) => match failure.kind {
                    FailureKind::Connection => self.readout is None && self.dispatches == 0,
                    FailureKind::Close => self.readout is Some,
                    _ => self.readout is None,
                },
            },
        }
    }

    /// Whether `reply` answers the pending action.
    pub open spec fn accepts(self, reply: ReplyView<E>) -> bool {
        match reply {
            ReplyView::Completed => self.pending != Action::Poll && self.pending
                != Action::ReadText && self.pending != Action::Exit,
            ReplyView::Elapsed(_) => self.pending == Action::Poll,
            ReplyView::Text(_) => self.pending == Action::ReadText,
            ReplyView::Failed(_) => failure_of(self.pending) is Some,
        }
    }

    /// The run after a tick of the loop that observed `elapsed`: a dispatch
    /// is pending if the tick fires, the next poll if it idles, and the
    /// readout if the deadline has passed.
    pub open spec fn ticked(self, elapsed: nat) -> RunView<E> {
        RunView {
            pending: match tick_at(self.duration, self.interval, elapsed) {
                Tick::Fire => Action::Dispatch,
                Tick::Idle => Action::Poll,
                Tick::Expired => Action::LocateReadout,
            },
            ..self
        }
    }

    /// The run after a call failed: the first failure is kept, and closing
    /// is pending if a session is open.
    pub open spec fn failed(self, kind: FailureKind, cause: E) -> RunView<E> {
        RunView {
            pending: if kind == FailureKind::Connection || kind == FailureKind::Close {
                Action::Exit
            } else {
                Action::Close
            },
            failure: if self.failure is Some {
                self.failure
            } else {
                Some(Failure { kind, cause })
            },
            ..self
        }
    }

    /// The run after the pending action was answered with `reply`.
    pub open spec fn next(self, reply: ReplyView<E>) -> RunView<E> {
        if !self.accepts(reply) {
            self
        } else {
            match reply {
                ReplyView::Failed(cause) => self.failed(failure_of(self.pending)->0, cause),
                ReplyView::Elapsed(elapsed) => self.ticked(elapsed),
                ReplyView::Text(text) => RunView {
                    pending: Action::Report,
                    readout: Some(text),
                    ..self
                },
                ReplyView::Completed => match self.pending {
                    Action::Connect => RunView { pending: Action::LocateTarget, ..self },
                    Action::LocateTarget => self.ticked(0),
                    Action::Dispatch => RunView {
                        pending: Action::Poll,
                        dispatches: self.dispatches + 1,
                        ..self
                    },
                    Action::LocateReadout => RunView { pending: Action::ReadText, ..self },
                    Action::Report => RunView { pending: Action::Close, ..self },
                    Action::Close => RunView { pending: Action::Exit, ..self },
                    Action::Poll | Action::ReadText | Action::Exit => self,
                },
            }
        }
    }

    /// The lines that the run has to report: none before the readout was
    /// read, then its text and the dispatch counter.
    pub open spec fn report_lines(self) -> Seq<Seq<char>> {
        match self.readout {
            Some(text) => report_lines(text, self.dispatches),
            None => Seq::empty(),
        }
    }

    /// A valid run is still valid after any reply.
    pub proof fn lemma_next_stays_valid(self, reply: ReplyView<E>)
        requires
            self.valid(),
        ensures
            self.next(reply).valid(),
    {
    }
}

/// A run of the dispatcher. `E` is whatever the caller reports as the cause
/// of a failed call; the run hands it back untouched.
pub struct Run<E> {
    schedule: Schedule,
    gesture: Gesture,
    pending: Action,
    origin: Option<Instant>,
    dispatches: u64,
    readout: Option<String>,
    failure: Option<Failure<E>>,
}

impl<E> View for Run<E> {
    type V = RunView<E>;

    closed spec fn view(&self) -> RunView<E> {
        RunView {
            duration: self.schedule.duration(),
            interval: self.schedule.interval(),
            gesture: self.gesture@,
            pending: self.pending,
            dispatches: self.dispatches as nat,
            readout: match self.readout {
                Some(text) => Some(text@),
                None => None,
            },
            failure: self.failure,
        }
    }
}

impl<E> Run<E> {
    /// Inside the loop the clock's origin is held, and a run that got as far
    /// as reporting holds its readout unless a call failed on the way. This
    /// much is kept as a type invariant, so that polling and the outcome
    /// need no precondition.
    #[verifier::type_invariant]
    spec fn well_formed(self) -> bool {
        &&& self.pending == Action::Dispatch || self.pending == Action::Poll
            ==> self.origin is Some
        &&& (self.pending == Action::Report || self.pending == Action::Close || self.pending
            == Action::Exit) && self.failure is None ==> self.readout is Some
    }

    /// The instant from which the loop measures elapsed time, once it has
    /// been captured.
    pub closed spec fn origin(self) -> Option<Instant> {
        self.origin
    }

    /// A run on `schedule` that replays `gesture`. Connecting is pending.
    pub fn new(schedule: Schedule, gesture: Gesture) -> (run: Run<E>)
        ensures
            run@ == RunView::<E>::initial(schedule.duration(), schedule.interval(), gesture@),
            run@.valid(),
            run.origin() is None,
    {
        // Reading the interval tells the proof that it is positive.
        let _ = schedule.interval_ms();
        Run {
            schedule,
            gesture,
            pending: Action::Connect,
            origin: None,
            dispatches: 0,
            readout: None,
            failure: None,
        }
    }

    /// The action that the caller is asked to carry out.
    pub fn pending(&self) -> (action: Action)
        ensures
            action == self@.pending,
    {
        self.pending
    }

    /// The dispatch counter: how many dispatches have succeeded.
    pub fn dispatches(&self) -> (count: u64)
        ensures
            count == self@.dispatches,
    {
        self.dispatches
    }

    /// The gesture that every dispatch replays.
    pub fn gesture(&self) -> (gesture: &Gesture)
        ensures
            gesture@ == self@.gesture,
    {
        &self.gesture
    }

    /// The schedule that the loop runs on.
    pub fn schedule(&self) -> (schedule: Schedule)
        ensures
            schedule.duration() == self@.duration,
            schedule.interval() == self@.interval,
    {
        self.schedule
    }

    /// The action that a tick of the loop leaves pending.
    fn after_tick(&self, elapsed_ms: u128) -> (action: Action)
        ensures
            action == self@.ticked(elapsed_ms as nat).pending,
    {
        match self.schedule.classify(elapsed_ms) {
            Tick::Fire => Action::Dispatch,
            Tick::Idle => Action::Poll,
            Tick::Expired => Action::LocateReadout,
        }
    }

    /// Records a failed call, unless one is recorded already, and leaves
    /// the loop.
    fn fail(&mut self, kind: FailureKind, cause: E)
        ensures
            final(self)@ == old(self)@.failed(kind, cause),
            final(self).origin() == old(self).origin(),
    {
        proof {
            use_type_invariant(&*self);
        }
        if self.failure.is_none() {
            self.failure = Some(Failure { kind, cause });
        }
        self.pending = match kind {
            FailureKind::Connection => Action::Exit,
            FailureKind::Close => Action::Exit,
            _ => Action::Close,
        };
    }

    /// Takes the reply to the pending action and names the next one.
    ///
    /// A dispatch that succeeded is counted, so the counter must not be
    /// full when one is reported. The clock's origin is captured by the
    /// reply that enters the loop, the target having been located, and is
    /// never touched again.
    pub fn step(&mut self, reply: Reply<E>) -> (action: Action)
        requires
            old(self)@.pending == Action::Dispatch && reply@ is Completed ==> old(self)@.dispatches
                < u64::MAX,
        ensures
            final(self)@ == old(self)@.next(reply@),
            action == final(self)@.pending,
            old(self)@.valid() ==> final(self)@.valid(),
            old(self).origin() is Some ==> final(self).origin() == old(self).origin(),
            final(self).origin() is Some <==> old(self).origin() is Some || (old(self)@.pending
                == Action::LocateTarget && reply@ is Completed),
    {
        proof {
            use_type_invariant(&*self);
            if self@.valid() {
                self@.lemma_next_stays_valid(reply@);
            }
        }
        match reply {
            Reply::Completed => {
                match self.pending {
                    Action::Connect => {
                        self.pending = Action::LocateTarget;
                    },
                    Action::LocateTarget => {
                        // The loop is entered here and nowhere else.
                        if self.origin.is_none() {
                            self.origin = Some(now());
                        }
                        self.pending = self.after_tick(0);
                    },
                    Action::Dispatch => {
                        self.dispatches = self.dispatches + 1;
                        self.pending = Action::Poll;
                    },
                    Action::LocateReadout => {
                        self.pending = Action::ReadText;
                    },
                    Action::Report => {
                        self.pending = Action::Close;
                    },
                    Action::Close => {
                        self.pending = Action::Exit;
                    },
                    Action::Poll | Action::ReadText | Action::Exit => {},
                }
            },
            Reply::Elapsed(elapsed_ms) => {
                match self.pending {
                    Action::Poll => {
                        self.pending = self.after_tick(elapsed_ms);
                    },
                    _ => {},
                }
            },
            Reply::Text(text) => {
                match self.pending {
                    Action::ReadText => {
                        self.readout = Some(text);
                        self.pending = Action::Report;
                    },
                    _ => {},
                }
            },
            Reply::Failed(cause) => {
                match self.pending {
                    Action::Connect => self.fail(FailureKind::Connection, cause),
                    Action::LocateTarget => self.fail(FailureKind::NotFound, cause),
                    Action::Dispatch => self.fail(FailureKind::Dispatch, cause),
                    Action::LocateReadout => self.fail(FailureKind::NotFound, cause),
                    Action::ReadText => self.fail(FailureKind::Read, cause),
                    Action::Close => self.fail(FailureKind::Close, cause),
                    Action::Poll | Action::Report | Action::Exit => {},
                }
            },
        }
        self.pending
    }

    /// Answers a pending poll from the system clock: samples the whole
    /// milliseconds elapsed since the origin and takes the tick. Whatever
    /// the clock reads, the run goes on as [`Run::step`] would on a reply
    /// with that reading. When no poll is pending, nothing changes.
    pub fn poll(&mut self) -> (action: Action)
        ensures
            exists|elapsed: nat| final(self)@ == old(self)@.next(ReplyView::Elapsed(elapsed)),
            old(self)@.pending != Action::Poll ==> final(self)@ == old(self)@,
            action == final(self)@.pending,
            old(self)@.valid() ==> final(self)@.valid(),
            final(self).origin() == old(self).origin(),
    {
        proof {
            use_type_invariant(&*self);
        }
        let ghost before = self@;
        match (self.pending, self.origin) {
            (Action::Poll, Some(origin)) => {
                let elapsed = elapsed_ms(&origin);
                self.pending = self.after_tick(elapsed);
                proof {
                    let reading = elapsed as nat;
                    assert(self@ == before.next(ReplyView::Elapsed(reading)));
                    if before.valid() {
                        before.lemma_next_stays_valid(ReplyView::Elapsed(reading));
                    }
                }
            },
            _ => {
                assert(self@ == before.next(ReplyView::Elapsed(0)));
            },
        }
        self.pending
    }

    /// The lines to print when reporting is pending: the text of the
    /// readout, then the dispatch counter. Empty until the readout was read.
    pub fn report_lines(&self) -> (lines: Vec<String>)
        ensures
            texts(lines@) == self@.report_lines(),
    {
        let mut lines: Vec<String> = Vec::new();
        match &self.readout {
            Some(text) => {
                lines.push(text.clone());
                lines.push(decimal_string(self.dispatches));
            },
            None => {},
        }
        assert(texts(lines@) =~= self@.report_lines());
        lines
    }

    /// How the run ended, once nothing is left to do: the report of a run
    /// that went through, or the failure that ended it. Before that, `None`.
    pub fn outcome(self) -> (outcome: Option<Result<Report, Failure<E>>>)
        ensures
            match outcome {
                None => self@.pending != Action::Exit,
                Some(Err(failure)) => self@.pending == Action::Exit && self@.failure == Some(
                    failure,
                ),
                Some(Ok(report)) => self@.pending == Action::Exit && self@.failure is None
                    && self@.readout == Some(report.readout@) && report.dispatches
                    == self@.dispatches,
            },
    {
        proof {
            use_type_invariant(&self);
        }
        match self.pending {
            Action::Exit => match self.failure {
                Some(failure) => Some(Err(failure)),
                None => match self.readout {
                    Some(readout) => Some(Ok(Report { readout, dispatches: self.dispatches })),
                    None => None,
                },
            },
            _ => None,
        }
    }
}

} // verus!
