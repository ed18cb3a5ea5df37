//! What holds of every run, proved over the model of [`crate::run`].
//!
//! A run is followed through the replies that it is given, one
//! [`RunView::next`] per reply. An action is *issued* by a reply when the
//! reply answers the pending action and leaves that action pending next.
//! The action that is pending at the start is there already; no reply
//! issues it.

use crate::gesture::GestureView;
use crate::run::{Action, Failure, FailureKind, ReplyView, RunView};
use crate::schedule::{expires, firings, tick_at, Tick};
use vstd::prelude::*;

verus! {

/// The run after it was given `replies` in order.
pub open spec fn run_from<E>(run: RunView<E>, replies: Seq<ReplyView<E>>) -> RunView<E>
    decreases replies.len(),
{
    if replies.len() == 0 {
        run
    } else {
        run_from(run.next(replies[0]), replies.skip(1))
    }
}

/// How often `action` is issued while the run is given `replies`.
pub open spec fn issued<E>(run: RunView<E>, replies: Seq<ReplyView<E>>, action: Action) -> nat
    decreases replies.len(),
{
    if replies.len() == 0 {
        0
    } else {
        let now: nat = if run.accepts(replies[0]) && run.next(replies[0]).pending == action {
            1
        } else {
            0
        };
        now + issued(run.next(replies[0]), replies.skip(1), action)
    }
}

/// How many dispatches succeed while the run is given `replies`.
pub open spec fn succeeded<E>(run: RunView<E>, replies: Seq<ReplyView<E>>) -> nat
    decreases replies.len(),
{
    if replies.len() == 0 {
        0
    } else {
        let now: nat = if run.pending == Action::Dispatch && replies[0] is Completed {
            1
        } else {
            0
        };
        now + succeeded(run.next(replies[0]), replies.skip(1))
    }
}

/// The run after the loop was driven by a scripted clock over a session
/// whose dispatches all succeed: every pending dispatch is answered as
/// completed, every pending poll with the next of `samples`, until the loop
/// is left or a poll finds no sample.
pub open spec fn polled<E>(run: RunView<E>, samples: Seq<nat>) -> RunView<E>
    decreases samples.len(), (if run.pending == Action::Dispatch { 1nat } else { 0nat }),
{
    if run.pending == Action::Dispatch {
        polled(run.next(ReplyView::Completed), samples)
    } else if run.pending == Action::Poll && samples.len() > 0 {
        polled(run.next(ReplyView::Elapsed(samples[0])), samples.skip(1))
    } else {
        run
    }
}

/// Where an action stands in the order of a run. The two actions of the
/// loop share a place.
pub open spec fn place(action: Action) -> nat {
    match action {
        Action::Connect => 0,
        Action::LocateTarget => 1,
        Action::Dispatch => 2,
        Action::Poll => 2,
        Action::LocateReadout => 3,
        Action::ReadText => 4,
        Action::Report => 5,
        Action::Close => 6,
        Action::Exit => 7,
    }
}

/// Whether the session was closed or is being closed.
pub open spec fn close_asked<E>(run: RunView<E>) -> bool {
    ||| run.pending == Action::Close
    ||| run.pending == Action::Exit && !(run.failure matches Some(failure) && failure.kind
        == FailureKind::Connection)
}

/// Whether a dispatch is pending or has failed.
pub open spec fn dispatch_open<E>(run: RunView<E>) -> bool {
    ||| run.pending == Action::Dispatch
    ||| run.failure matches Some(failure) && failure.kind == FailureKind::Dispatch
}

proof fn lemma_run_from_joined<E>(
    run: RunView<E>,
    first: Seq<ReplyView<E>>,
    second: Seq<ReplyView<E>>,
    action: Action,
)
    ensures
        run_from(run, first + second) == run_from(run_from(run, first), second),
        issued(run, first + second, action) == issued(run, first, action) + issued(
            run_from(run, first),
            second,
            action,
        ),
    decreases first.len(),
{
    if first.len() == 0 {
        assert(first + second =~= second);
    } else {
        assert((first + second)[0] == first[0]);
        assert((first + second).skip(1) =~= first.skip(1) + second);
        lemma_run_from_joined(run.next(first[0]), first.skip(1), second, action);
    }
}

/// A valid run stays valid, whatever it is given.
pub proof fn law_runs_stay_valid<E>(run: RunView<E>, replies: Seq<ReplyView<E>>)
    requires
        run.valid(),
    ensures
        run_from(run, replies).valid(),
        run_from(run, replies).duration == run.duration,
        run_from(run, replies).interval == run.interval,
    decreases replies.len(),
{
    if replies.len() > 0 {
        law_runs_stay_valid(run.next(replies[0]), replies.skip(1));
    }
}

/// A run replays one gesture: whatever the run is given, the gesture that a
/// dispatch sends stays the one that the run was made with.
pub proof fn law_gesture_never_changes<E>(run: RunView<E>, replies: Seq<ReplyView<E>>)
    ensures
        run_from(run, replies).gesture == run.gesture,
    decreases replies.len(),
{
    if replies.len() > 0 {
        law_gesture_never_changes(run.next(replies[0]), replies.skip(1));
    }
}

/// The dispatch counter goes up by exactly one when a pending dispatch is
/// answered as completed, and no other reply changes it.
pub proof fn law_counter_steps_by_one<E>(run: RunView<E>, reply: ReplyView<E>)
    ensures
        run.next(reply).dispatches == run.dispatches + (if run.pending == Action::Dispatch
            && reply is Completed {
            1nat
        } else {
            0nat
        }),
{
}

/// Over any replies the dispatch counter never goes down: it grows by the
/// number of dispatches that succeeded, no more and no less.
pub proof fn law_counter_counts_successes<E>(run: RunView<E>, replies: Seq<ReplyView<E>>)
    ensures
        run_from(run, replies).dispatches == run.dispatches + succeeded(run, replies),
        run_from(run, replies).dispatches >= run.dispatches,
    decreases replies.len(),
{
    if replies.len() > 0 {
        law_counter_steps_by_one(run, replies[0]);
        law_counter_counts_successes(run.next(replies[0]), replies.skip(1));
    }
}

/// The firing count follows from the clock alone. Under a scripted clock
/// and a session whose dispatches all succeed, the loop adds to the counter
/// exactly the number of observed ticks that fire, and is left exactly when
/// a tick has expired.
pub proof fn law_firings_follow_the_clock<E>(run: RunView<E>, samples: Seq<nat>)
    requires
        run.pending == Action::Poll,
    ensures
        polled(run, samples).dispatches == run.dispatches + firings(
            run.duration,
            run.interval,
            samples,
        ),
        polled(run, samples).pending == (if expires(run.duration, samples) {
            Action::LocateReadout
        } else {
            Action::Poll
        }),
    decreases samples.len(),
{
    if samples.len() > 0 {
        let rest = samples.skip(1);
        let ticked = run.next(ReplyView::Elapsed(samples[0]));
        assert(polled(run, samples) == polled(ticked, rest));
        match tick_at(run.duration, run.interval, samples[0]) {
            Tick::Expired => {
                assert(polled(ticked, rest) == ticked);
                assert(samples[0] >= run.duration);
            },
            Tick::Idle => {
                law_firings_follow_the_clock(ticked, rest);
                lemma_expires_later(run.duration, samples);
            },
            Tick::Fire => {
                let fired = ticked.next(ReplyView::Completed);
                assert(polled(ticked, rest) == polled(fired, rest));
                law_firings_follow_the_clock(fired, rest);
                lemma_expires_later(run.duration, samples);
            },
        }
    }
}

proof fn lemma_expires_later(duration: nat, ticks: Seq<nat>)
    requires
        ticks.len() > 0,
        ticks[0] < duration,
    ensures
        expires(duration, ticks) == expires(duration, ticks.skip(1)),
{
    let rest = ticks.skip(1);
    if expires(duration, rest) {
        let k = choose|k: int| 0 <= k < rest.len() && #[trigger] rest[k] >= duration;
        assert(ticks[k + 1] >= duration);
    }
    if expires(duration, ticks) {
        let k = choose|k: int| 0 <= k < ticks.len() && #[trigger] ticks[k] >= duration;
        assert(rest[k - 1] >= duration);
    }
}

/// The same from the entry of the loop. The first tick is taken when the
/// target is located and observes zero; the samples follow.
pub proof fn law_loop_counts_from_zero<E>(run: RunView<E>, samples: Seq<nat>)
    requires
        run.valid(),
        run.pending == Action::LocateTarget,
    ensures
        ({
            let ticks = seq![0nat] + samples;
            let end = polled(run.next(ReplyView::Completed), samples);
            &&& end.dispatches == firings(run.duration, run.interval, ticks)
            &&& end.pending == (if expires(run.duration, ticks) {
                Action::LocateReadout
            } else {
                Action::Poll
            })
        }),
{
    let ticks = seq![0nat] + samples;
    let entered = run.next(ReplyView::Completed);
    assert(ticks[0] == 0);
    assert(ticks.skip(1) =~= samples);
    assert(0nat % run.interval == 0);
    if run.duration == 0 {
        assert(ticks[0] >= run.duration);
        assert(polled(entered, samples) == entered);
    } else {
        let fired = entered.next(ReplyView::Completed);
        assert(polled(entered, samples) == polled(fired, samples));
        law_firings_follow_the_clock(fired, samples);
        lemma_expires_later(run.duration, ticks);
    }
}

/// A clock that every tick finds one millisecond further on: `count` ticks
/// that observe `from`, `from + 1` and so on.
pub open spec fn millisecond_clock(from: nat, count: nat) -> Seq<nat> {
    Seq::new(count, |k: int| (from + k) as nat)
}

/// How many multiples of the interval lie below a bound, zero included: the
/// bound divided by the interval, rounded up.
pub open spec fn boundaries_below(bound: nat, interval: nat) -> nat {
    ((bound + interval - 1) / (interval as int)) as nat
}

proof fn lemma_boundaries_step(bound: nat, interval: nat)
    requires
        interval > 0,
    ensures
        boundaries_below(0, interval) == 0,
        boundaries_below(bound + 1, interval) == boundaries_below(bound, interval) + (if bound
            % interval == 0 {
            1nat
        } else {
            0nat
        }),
{
    let i = interval as int;
    let q = bound as int / i;
    let r = bound as int % i;
    assert(bound == q * i + r && 0 <= r < i && 0 <= q) by (nonlinear_arith)
        requires
            i > 0,
            bound >= 0,
            q == bound as int / i,
            r == bound as int % i,
    ;
    assert((i - 1) / i == 0) by (nonlinear_arith)
        requires
            i > 0,
    ;
    assert((q * i + r + i) / i == q + 1) by (nonlinear_arith)
        requires
            i > 0,
            0 <= r < i,
    ;
    assert((q * i + r + i - 1) / i == q + (if r == 0 { 0int } else { 1int })) by (nonlinear_arith)
        requires
            i > 0,
            0 <= r < i,
    ;
}

proof fn lemma_firings_on_millisecond_clock(duration: nat, interval: nat, from: nat, count: nat)
    requires
        interval > 0,
        from <= duration,
    ensures
        firings(duration, interval, millisecond_clock(from, count)) + boundaries_below(
            from,
            interval,
        ) == boundaries_below(
            if from + count <= duration {
                from + count
            } else {
                duration
            },
            interval,
        ),
    decreases count,
{
    let ticks = millisecond_clock(from, count);
    if count > 0 && from < duration {
        assert(ticks[0] == from);
        assert(ticks.skip(1) =~= millisecond_clock(from + 1, (count - 1) as nat));
        lemma_firings_on_millisecond_clock(duration, interval, from + 1, (count - 1) as nat);
        lemma_boundaries_step(from, interval);
    } else if count > 0 {
        assert(ticks[0] == from);
    }
}

/// On a clock that every poll finds one millisecond further on, with
/// dispatches that all succeed, each boundary below the deadline is observed
/// exactly once: the loop dispatches once per interval, the duration divided
/// by the interval, rounded up, and is left at the deadline.
pub proof fn law_millisecond_clock_fires_once_per_interval<E>(run: RunView<E>)
    requires
        run.valid(),
        run.pending == Action::LocateTarget,
    ensures
        ({
            let end = polled(
                run.next(ReplyView::Completed),
                millisecond_clock(1, run.duration),
            );
            &&& end.dispatches == boundaries_below(run.duration, run.interval)
            &&& end.pending == Action::LocateReadout
        }),
{
    let samples = millisecond_clock(1, run.duration);
    let ticks = seq![0nat] + samples;
    law_loop_counts_from_zero(run, samples);
    assert(ticks =~= millisecond_clock(0, run.duration + 1));
    lemma_firings_on_millisecond_clock(run.duration, run.interval, 0, run.duration + 1);
    lemma_boundaries_step(0, run.interval);
    assert(ticks[run.duration as int] >= run.duration);
}

proof fn lemma_dispatches_issued<E>(run: RunView<E>, replies: Seq<ReplyView<E>>)
    requires
        run.valid(),
    ensures
        ({
            let end = run_from(run, replies);
            issued(run, replies, Action::Dispatch) + run.dispatches + (if dispatch_open(run) {
                1nat
            } else {
                0nat
            }) == end.dispatches + (if dispatch_open(end) {
                1nat
            } else {
                0nat
            })
        }),
    decreases replies.len(),
{
    if replies.len() > 0 {
        lemma_dispatches_issued(run.next(replies[0]), replies.skip(1));
    }
}

/// Every dispatch call is counted. In a run from the start, the calls issued
/// so far are the dispatches that succeeded, and one more while a dispatch
/// is pending or after one has failed.
pub proof fn law_dispatch_calls_are_counted<E>(
    duration: nat,
    interval: nat,
    gesture: GestureView,
    replies: Seq<ReplyView<E>>,
)
    requires
        interval > 0,
    ensures
        ({
            let start = RunView::<E>::initial(duration, interval, gesture);
            let end = run_from(start, replies);
            issued(start, replies, Action::Dispatch) == end.dispatches + (if dispatch_open(end) {
                1nat
            } else {
                0nat
            })
        }),
{
    lemma_dispatches_issued(RunView::<E>::initial(duration, interval, gesture), replies);
}

/// A failure is final. Once a call has failed, whatever the run is given,
/// the counter stays where it was, no dispatch, no poll and no report is
/// issued, the pending action can only give way to the exit, and the
/// failure is kept as it was recorded.
pub proof fn law_failure_is_final<E>(run: RunView<E>, later: Seq<ReplyView<E>>)
    requires
        run.valid(),
        run.failure is Some,
    ensures
        ({
            let end = run_from(run, later);
            &&& end.pending == run.pending || end.pending == Action::Exit
            &&& end.dispatches == run.dispatches
            &&& end.failure == run.failure
            &&& end.readout == run.readout
            &&& issued(run, later, Action::Dispatch) == 0
            &&& issued(run, later, Action::Poll) == 0
            &&& issued(run, later, Action::Report) == 0
        }),
    decreases later.len(),
{
    if later.len() > 0 {
        law_failure_is_final(run.next(later[0]), later.skip(1));
    }
}

/// A failed dispatch ends the loop at once. The counter is not moved,
/// closing the session is pending, and from then on the run asks for
/// nothing but that: no dispatch, no poll, no report, whatever it is given.
/// The failure is the dispatch failure with its cause.
pub proof fn law_failed_dispatch_freezes_the_run<E>(
    run: RunView<E>,
    cause: E,
    later: Seq<ReplyView<E>>,
)
    requires
        run.valid(),
        run.pending == Action::Dispatch,
    ensures
        ({
            let stopped = run.next(ReplyView::Failed(cause));
            let end = run_from(stopped, later);
            &&& stopped.pending == Action::Close
            &&& end.pending == Action::Close || end.pending == Action::Exit
            &&& end.dispatches == run.dispatches
            &&& end.failure == Some(Failure { kind: FailureKind::Dispatch, cause })
            &&& end.report_lines().len() == 0
            &&& issued(stopped, later, Action::Dispatch) == 0
            &&& issued(stopped, later, Action::Poll) == 0
            &&& issued(stopped, later, Action::Report) == 0
        }),
{
    law_failure_is_final(run.next(ReplyView::Failed(cause)), later);
}

/// The dispatch that fails as the n-th call is the last one. In a run from
/// the start in which a dispatch is pending after `before`, that dispatch is
/// call number counter plus one; if it fails, then after any further replies
/// exactly that many calls were issued, the counter is still one less, and
/// the run's failure is that dispatch failure with its cause.
pub proof fn law_nth_dispatch_failure<E>(
    duration: nat,
    interval: nat,
    gesture: GestureView,
    before: Seq<ReplyView<E>>,
    cause: E,
    after: Seq<ReplyView<E>>,
)
    requires
        interval > 0,
        run_from(RunView::<E>::initial(duration, interval, gesture), before).pending
            == Action::Dispatch,
    ensures
        ({
            let start = RunView::<E>::initial(duration, interval, gesture);
            let n = issued(start, before, Action::Dispatch);
            let replies = before + seq![ReplyView::Failed(cause)] + after;
            let end = run_from(start, replies);
            &&& n == run_from(start, before).dispatches + 1
            &&& issued(start, replies, Action::Dispatch) == n
            &&& end.dispatches == n - 1
            &&& end.failure == Some(Failure { kind: FailureKind::Dispatch, cause })
        }),
{
    let start = RunView::<E>::initial(duration, interval, gesture);
    let failing = run_from(start, before);
    let failed = seq![ReplyView::Failed(cause)];
    law_runs_stay_valid(start, before);
    law_dispatch_calls_are_counted(duration, interval, gesture, before);
    lemma_run_from_joined(start, before, failed, Action::Dispatch);
    lemma_run_from_joined(start, before + failed, after, Action::Dispatch);
    assert(failed.skip(1) =~= Seq::<ReplyView<E>>::empty());
    assert(run_from(failing, failed) == failing.next(ReplyView::Failed(cause))) by {
        assert(run_from(failing.next(failed[0]), failed.skip(1)) == failing.next(failed[0]));
    }
    assert(issued(failing, failed, Action::Dispatch) == 0) by {
        assert(issued(failing.next(failed[0]), failed.skip(1), Action::Dispatch) == 0);
    }
    law_failed_dispatch_freezes_the_run(failing, cause, after);
}

proof fn lemma_closes_issued<E>(run: RunView<E>, replies: Seq<ReplyView<E>>)
    requires
        run.valid(),
    ensures
        issued(run, replies, Action::Close) + (if close_asked(run) {
            1nat
        } else {
            0nat
        }) == (if close_asked(run_from(run, replies)) {
            1nat
        } else {
            0nat
        }),
    decreases replies.len(),
{
    if replies.len() > 0 {
        lemma_closes_issued(run.next(replies[0]), replies.skip(1));
    }
}

/// The session is closed exactly once. In a run from the start, closing is
/// never issued twice, and a run that has nothing left to do has issued it
/// once, on whatever path it got there. The one exception is the run whose
/// connection failed: it has no session and never issues it.
pub proof fn law_session_closed_once<E>(
    duration: nat,
    interval: nat,
    gesture: GestureView,
    replies: Seq<ReplyView<E>>,
)
    requires
        interval > 0,
    ensures
        ({
            let start = RunView::<E>::initial(duration, interval, gesture);
            let end = run_from(start, replies);
            &&& issued(start, replies, Action::Close) <= 1
            &&& end.pending == Action::Exit ==> issued(start, replies, Action::Close) == (
            if end.failure matches Some(failure) && failure.kind == FailureKind::Connection {
                0nat
            } else {
                1nat
            })
        }),
{
    lemma_closes_issued(RunView::<E>::initial(duration, interval, gesture), replies);
}

proof fn lemma_never_goes_back<E>(run: RunView<E>, replies: Seq<ReplyView<E>>, action: Action)
    requires
        action != Action::Dispatch,
        action != Action::Poll,
        place(run.pending) >= place(action),
    ensures
        issued(run, replies, action) == 0,
    decreases replies.len(),
{
    if replies.len() > 0 {
        lemma_never_goes_back(run.next(replies[0]), replies.skip(1), action);
    }
}

/// Outside the loop nothing is done twice. Whatever the run is given, each
/// action other than a dispatch or a poll is issued at most once: the
/// target is resolved once, the readout is read and reported once.
pub proof fn law_one_pass<E>(run: RunView<E>, replies: Seq<ReplyView<E>>, action: Action)
    requires
        action != Action::Dispatch,
        action != Action::Poll,
    ensures
        issued(run, replies, action) <= 1,
    decreases replies.len(),
{
    if replies.len() > 0 {
        let next = run.next(replies[0]);
        if run.accepts(replies[0]) && next.pending == action {
            lemma_never_goes_back(next, replies.skip(1), action);
        } else {
            law_one_pass(next, replies.skip(1), action);
        }
    }
}

} // verus!
