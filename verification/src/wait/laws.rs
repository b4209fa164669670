//! What the wait loop promises, stated over its decisions.

use vstd::prelude::*;

use crate::text::{contains_text, decimal, lossy_utf8, occurs_at};
use crate::wait::checks::streams_hold;
use crate::wait::probe::Probe;
use crate::wait::ready::{
    attempt_line, fatal_message, flush_spec, observe_spec, repeat_line, saturating_inc,
    step_state, step_verdict, timeout_message, ReadyWaitView, RepeatsView, StepVerdict,
};

verus! {

proof fn lemma_suffix_occurs(prefix: Seq<char>, s: Seq<char>)
    ensures
        occurs_at(prefix + s, s, prefix.len() as int),
        contains_text(prefix + s, s),
{
    assert((prefix + s).subrange(prefix.len() as int, (prefix.len() + s.len()) as int) =~= s);
}

proof fn lemma_infix_occurs(prefix: Seq<char>, s: Seq<char>, suffix: Seq<char>)
    ensures
        contains_text(prefix + s + suffix, s),
{
    assert((prefix + s + suffix).subrange(prefix.len() as int, (prefix.len() + s.len()) as int) =~= s);
    assert(occurs_at(prefix + s + suffix, s, prefix.len() as int));
}

/// A fatal outcome ends the wait at once, whatever the clock says, and the error carries the
/// probe's own message rather than a timeout that would describe only the symptom.
pub proof fn law_fatal_ends_with_its_cause<T>(w: ReadyWaitView, err: Seq<char>, passed: bool)
    ensures
        step_verdict(w, Probe::<T, Seq<char>>::Fatal(err), passed) == StepVerdict::<T>::Failed(
            fatal_message(saturating_inc(w.attempt), err),
        ),
        contains_text(fatal_message(saturating_inc(w.attempt), err), err),
{
    let a = saturating_inc(w.attempt);
    lemma_suffix_occurs(
        "[wait_until_ready]: attempt "@ + decimal(a as nat) + " failed unrecoverably: "@,
        err,
    );
}

/// A wait that runs out of time says so, and reports the last retry message rather than a
/// placeholder.
pub proof fn law_timeout_reports_the_last_error<T>(w: ReadyWaitView, err: Seq<char>)
    ensures
        step_verdict(w, Probe::<T, Seq<char>>::Retry(err), true) == StepVerdict::<T>::Failed(
            timeout_message(w.timeout, saturating_inc(w.attempt), err),
        ),
        contains_text(timeout_message(w.timeout, saturating_inc(w.attempt), err), err),
        contains_text(
            timeout_message(w.timeout, saturating_inc(w.attempt), err),
            "!!Timeout!!"@,
        ),
{
    let a = saturating_inc(w.attempt);
    lemma_suffix_occurs(
        "[wait_until_ready]: "@ + "!!Timeout!!"@ + " Waited "@ + w.timeout + " over "@ + decimal(
            a as nat,
        ) + " attempt(s). Last error: "@,
        err,
    );
    lemma_infix_occurs(
        "[wait_until_ready]: "@,
        "!!Timeout!!"@,
        " Waited "@ + w.timeout + " over "@ + decimal(a as nat) + " attempt(s). Last error: "@
            + err,
    );
    assert("[wait_until_ready]: "@ + "!!Timeout!!"@ + (" Waited "@ + w.timeout + " over "@
        + decimal(a as nat) + " attempt(s). Last error: "@ + err) =~= timeout_message(
        w.timeout,
        a,
        err,
    ));
}

/// A ready outcome is accepted even once the timeout has elapsed: the probe always runs at
/// least once, even with a zero timeout, and an already ready service is not reported as a
/// timeout.
pub proof fn law_ready_is_accepted_past_the_deadline<T>(w: ReadyWaitView, value: T, passed: bool)
    ensures
        step_verdict(w, Probe::<T, Seq<char>>::Ready(value), passed) == StepVerdict::<T>::Ready(
            value,
        ),
{
}

/// A retry before the timeout elapses never ends the wait.
pub proof fn law_retry_in_time_goes_again<T>(w: ReadyWaitView, err: Seq<char>)
    ensures
        step_verdict(w, Probe::<T, Seq<char>>::Retry(err), false) == StepVerdict::<T>::Again,
{
}

/// Every attempt is counted, whatever its outcome, saturating rather than wrapping.
pub proof fn law_every_attempt_is_counted<T>(
    w: ReadyWaitView,
    outcome: Probe<T, Seq<char>>,
    passed: bool,
)
    ensures
        step_state(w, outcome, passed).attempt == saturating_inc(w.attempt),
        w.attempt < u32::MAX ==> step_state(w, outcome, passed).attempt == w.attempt + 1,
{
}

/// The debug log never changes what the wait decides: two waits at the same attempt with the
/// same timeout decide alike, whether they print and whatever their logs hold.
pub proof fn law_logging_does_not_change_the_verdict<T>(
    w1: ReadyWaitView,
    w2: ReadyWaitView,
    outcome: Probe<T, Seq<char>>,
    passed: bool,
)
    requires
        w1.attempt == w2.attempt,
        w1.timeout == w2.timeout,
    ensures
        step_verdict(w1, outcome, passed) == step_verdict(w2, outcome, passed),
        step_state(w1, outcome, passed).attempt == step_state(w2, outcome, passed).attempt,
{
}

/// A repeat of the current message prints nothing and is only counted.
pub proof fn law_a_repeat_is_only_counted(r: RepeatsView, first: u32, next: u32, message: Seq<char>)
    ensures
        ({
            let after = observe_spec(r, first, message).0;
            &&& observe_spec(after, next, message).1 == Seq::<Seq<char>>::empty()
            &&& observe_spec(after, next, message).0 == RepeatsView {
                count: saturating_inc(after.count),
                ..after
            }
        }),
{
}

/// On a fresh or flushed log that prints, a message is printed on its first occurrence,
/// even when it is the empty string.
pub proof fn law_a_new_message_is_printed(r: RepeatsView, attempt: u32, message: Seq<char>)
    requires
        r.dbg,
        r.current is None,
        r.count == 0,
    ensures
        observe_spec(r, attempt, message).1 == seq![attempt_line(attempt, message)],
{
    assert(observe_spec(r, attempt, message).1 =~= seq![attempt_line(attempt, message)]);
}

/// Observing `message` `n` times in a row from `r`, at attempts 1 to `n`.
pub open spec fn observe_run(r: RepeatsView, message: Seq<char>, n: nat) -> (RepeatsView, Seq<Seq<char>>)
    decreases n,
{
    if n == 0 {
        (r, Seq::empty())
    } else {
        let before = observe_run(r, message, (n - 1) as nat);
        let step = observe_spec(before.0, n as u32, message);
        (step.0, before.1 + step.1)
    }
}

/// A run of `n` identical retry messages from a fresh log prints one line, and the flush
/// that ends it reports the `n - 1` repeats.
pub proof fn law_a_run_of_repeats_prints_once(r: RepeatsView, message: Seq<char>, n: nat)
    requires
        r.dbg,
        r.current is None,
        r.count == 0,
        1 <= n <= u32::MAX,
    ensures
        observe_run(r, message, n).1 == seq![attempt_line(1, message)],
        observe_run(r, message, n).0 == (RepeatsView {
            dbg: true,
            current: Some(message),
            count: (n - 1) as u32,
        }),
        flush_spec(observe_run(r, message, n).0).1 == if n > 1 {
            seq![repeat_line((n - 1) as u32)]
        } else {
            Seq::<Seq<char>>::empty()
        },
    decreases n,
{
    if n == 1 {
        assert(observe_run(r, message, 0).1 =~= Seq::<Seq<char>>::empty());
        law_a_new_message_is_printed(r, 1, message);
        assert(observe_run(r, message, 1).1 =~= seq![attempt_line(1, message)]);
    } else {
        law_a_run_of_repeats_prints_once(r, message, (n - 1) as nat);
        let before = observe_run(r, message, (n - 1) as nat);
        assert(observe_spec(before.0, n as u32, message).1 =~= Seq::<Seq<char>>::empty());
        assert(observe_run(r, message, n).1 =~= before.1);
    }
}


/// Where a whole wait ends when its probe gives `outcomes` in turn and the clock answers
/// `passed` after each attempt: the decision it ends with, and how many times it ran the
/// probe. A wait that is still going when the outcomes run out ends as `Again`.
pub open spec fn run_result<T>(
    w: ReadyWaitView,
    outcomes: Seq<Probe<T, Seq<char>>>,
    passed: Seq<bool>,
) -> (StepVerdict<T>, nat)
    decreases outcomes.len(),
{
    if outcomes.len() == 0 || passed.len() == 0 {
        (StepVerdict::Again, 0)
    } else {
        match step_verdict(w, outcomes[0], passed[0]) {
            StepVerdict::Again => {
                let rest = run_result(
                    step_state(w, outcomes[0], passed[0]),
                    outcomes.drop_first(),
                    passed.drop_first(),
                );
                (rest.0, rest.1 + 1)
            },
            v => (v, 1),
        }
    }
}

/// The debug log never changes a whole wait: two waits that start at the same attempt with
/// the same timeout, whether they print and whatever their logs hold, end with the same
/// decision after the same number of probe runs when their probes give the same outcomes
/// and their clocks the same answers. So a wait's result is a function of the outcomes and
/// the clock alone, whichever loop drives it.
pub proof fn law_logging_never_changes_a_wait<T>(
    w1: ReadyWaitView,
    w2: ReadyWaitView,
    outcomes: Seq<Probe<T, Seq<char>>>,
    passed: Seq<bool>,
)
    requires
        w1.attempt == w2.attempt,
        w1.timeout == w2.timeout,
    ensures
        run_result(w1, outcomes, passed) == run_result(w2, outcomes, passed),
    decreases outcomes.len(),
{
    if outcomes.len() > 0 && passed.len() > 0 {
        law_logging_does_not_change_the_verdict(w1, w2, outcomes[0], passed[0]);
        law_logging_never_changes_a_wait(
            step_state(w1, outcomes[0], passed[0]),
            step_state(w2, outcomes[0], passed[0]),
            outcomes.drop_first(),
            passed.drop_first(),
        );
    }
}


/// The console check searches both streams independently: the expected text found in
/// either stream passes, whatever the other holds, and the check fails only when neither
/// stream holds it.
pub proof fn law_either_stream_is_searched(stdout: Seq<u8>, stderr: Seq<u8>, expected: Seq<char>)
    ensures
        contains_text(lossy_utf8(stdout), expected) ==> streams_hold(stdout, stderr, expected),
        contains_text(lossy_utf8(stderr), expected) ==> streams_hold(stdout, stderr, expected),
        !contains_text(lossy_utf8(stdout), expected) && !contains_text(lossy_utf8(stderr), expected)
            ==> !streams_hold(stdout, stderr, expected),
        streams_hold(stdout, stderr, expected) == streams_hold(stderr, stdout, expected),
{
}

} // verus!
