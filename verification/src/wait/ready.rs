//! The decisions of the wait loop that retries a readiness probe.
//!
//! The loop itself runs a probe, reads the clock and sleeps, which is outside work; what it
//! decides after each attempt is here, as a state machine fed one outcome at a time.

use vstd::prelude::*;
use vstd::string::*;

use crate::docker::args::texts;
use crate::text::{decimal, duration_debug, duration_text, u64_text};
use crate::wait::probe::Probe;
use crate::wait::strategy::WaitStrategyError;

verus! {

/// One more than `n`, saturating at `u32::MAX`.
pub open spec fn saturating_inc(n: u32) -> u32 {
    if n == u32::MAX {
        n
    } else {
        (n + 1) as u32
    }
}

/// The debug line for an attempt whose message differs from the previous one.
pub open spec fn attempt_line(attempt: u32, message: Seq<char>) -> Seq<char> {
    "[wait_until_ready]: attempt "@ + decimal(attempt as nat) + ": "@ + message
}

/// The debug line that reports how many further attempts repeated a message.
pub open spec fn repeat_line(count: u32) -> Seq<char> {
    "[wait_until_ready]:   (same for "@ + decimal(count as nat) + " further attempt(s))"@
}

/// The state of the debug log of retry messages.
pub struct RepeatsView {
    pub dbg: bool,
    pub current: Option<Seq<char>>,
    pub count: u32,
}

/// What a flush prints, and the state it leaves.
pub open spec fn flush_spec(r: RepeatsView) -> (RepeatsView, Seq<Seq<char>>) {
    (
        RepeatsView { dbg: r.dbg, current: None, count: 0 },
        if r.count > 0 && r.dbg {
            seq![repeat_line(r.count)]
        } else {
            Seq::empty()
        },
    )
}

/// What observing `message` at `attempt` prints, and the state it leaves: a repeat of the
/// current message is only counted; any other message flushes the count and is printed.
pub open spec fn observe_spec(r: RepeatsView, attempt: u32, message: Seq<char>) -> (
    RepeatsView,
    Seq<Seq<char>>,
) {
    if r.current == Some(message) {
        (
            RepeatsView { dbg: r.dbg, current: r.current, count: saturating_inc(r.count) },
            Seq::empty(),
        )
    } else {
        (
            RepeatsView { dbg: r.dbg, current: Some(message), count: 0 },
            flush_spec(r).1 + if r.dbg {
                seq![attempt_line(attempt, message)]
            } else {
                Seq::empty()
            },
        )
    }
}

/// Collapses consecutive identical retry messages into one line plus a count.
///
/// The current message is an `Option` rather than a plain `String` so that a probe whose
/// error formats as the empty string is still reported on its first occurrence, instead of
/// being mistaken for the initial state and swallowed.
pub struct Repeats {
    dbg: bool,
    current: Option<String>,
    count: u32,
}

impl View for Repeats {
    type V = RepeatsView;

    closed spec fn view(&self) -> RepeatsView {
        RepeatsView {
            dbg: self.dbg,
            current: match self.current {
                Some(s) => Some(s@),
                None => None,
            },
            count: self.count,
        }
    }
}

/// Renders the repeat line for `count`.
fn repeat_text(count: u32) -> (s: String)
    ensures
        s@ == repeat_line(count),
{
    let mut s = String::from_str("[wait_until_ready]:   (same for ");
    let n = u64_text(count as u64);
    s.append(n.as_str());
    s.append(" further attempt(s))");
    s
}

impl Repeats {
    /// An empty log that prints only when `dbg` is set.
    pub fn new(dbg: bool) -> (r: Self)
        ensures
            r@ == (RepeatsView { dbg, current: None, count: 0 }),
    {
        Repeats { dbg, current: None, count: 0 }
    }

    /// Records one retry message. Returns the lines to print: none for a repeat of the
    /// current message, otherwise the count of the previous one and the new message.
    pub fn observe(&mut self, attempt: u32, message: &str) -> (lines: Vec<String>)
        ensures
            (final(self)@, texts(lines@)) == observe_spec(old(self)@, attempt, message@),
    {
        let m = String::from_str(message);
        let same = match &self.current {
            Some(cur) => *cur == m,
            None => false,
        };
        if same {
            self.count = if self.count == u32::MAX {
                self.count
            } else {
                self.count + 1
            };
            return Vec::new();
        }
        let mut lines = self.flush();
        if self.dbg {
            let mut line = String::from_str("[wait_until_ready]: attempt ");
            let n = u64_text(attempt as u64);
            line.append(n.as_str());
            line.append(": ");
            line.append(message);
            lines.push(line);
        }
        self.current = Some(m);
        self.count = 0;
        proof {
            let spec = observe_spec(old(self)@, attempt, message@);
            assert(texts(lines@) =~= spec.1);
        }
        lines
    }

    /// Reports how many further attempts repeated the current message, and resets.
    pub fn flush(&mut self) -> (lines: Vec<String>)
        ensures
            (final(self)@, texts(lines@)) == flush_spec(old(self)@),
    {
        let mut lines: Vec<String> = Vec::new();
        if self.count > 0 && self.dbg {
            lines.push(repeat_text(self.count));
        }
        self.current = None;
        self.count = 0;
        assert(texts(lines@) =~= flush_spec(old(self)@).1);
        lines
    }
}

/// The message of a wait that a probe ended with a fatal outcome.
pub open spec fn fatal_message(attempt: u32, err: Seq<char>) -> Seq<char> {
    "[wait_until_ready]: attempt "@ + decimal(attempt as nat) + " failed unrecoverably: "@ + err
}

/// The message of a wait that ran out of time, carrying the last retry message.
pub open spec fn timeout_message(timeout: Seq<char>, attempt: u32, last: Seq<char>) -> Seq<char> {
    "[wait_until_ready]: "@ + "!!Timeout!!"@ + " Waited "@ + timeout + " over "@ + decimal(
        attempt as nat,
    ) + " attempt(s). Last error: "@ + last
}

/// The debug line of a wait that ended ready.
pub open spec fn ready_line(attempt: u32) -> Seq<char> {
    "[wait_until_ready]: ready after "@ + decimal(attempt as nat) + " attempt(s)"@
}

/// The state of a wait: how many attempts it has made, how long it may take (as the
/// `Debug` text of the timeout), and its debug log.
pub struct ReadyWaitView {
    pub dbg: bool,
    pub attempt: u32,
    pub timeout: Seq<char>,
    pub log: RepeatsView,
}

/// What a wait decides after an attempt.
pub enum StepVerdict<T> {
    /// Ready, with what the probe built.
    Ready(T),
    /// Given up, with the message of the error.
    Failed(Seq<char>),
    /// Not ready yet: sleep and make another attempt.
    Again,
}

/// The outcome of a probe, with the message as text.
pub open spec fn probe_view<T>(p: Probe<T, String>) -> Probe<T, Seq<char>> {
    match p {
        Probe::Ready(v) => Probe::Ready(v),
        Probe::Retry(e) => Probe::Retry(e@),
        Probe::Fatal(e) => Probe::Fatal(e@),
    }
}

/// What the wait decides after the attempt that produced `outcome`, when `passed` tells
/// whether the timeout has elapsed since the wait began.
///
/// The elapsed time is consulted only after a retry: a ready or fatal outcome ends the wait
/// whatever the clock says.
pub open spec fn step_verdict<T>(w: ReadyWaitView, outcome: Probe<T, Seq<char>>, passed: bool) -> StepVerdict<T> {
    let attempt = saturating_inc(w.attempt);
    match outcome {
        Probe::Ready(v) => StepVerdict::Ready(v),
        Probe::Fatal(e) => StepVerdict::Failed(fatal_message(attempt, e)),
        Probe::Retry(e) => if passed {
            StepVerdict::Failed(timeout_message(w.timeout, attempt, e))
        } else {
            StepVerdict::Again
        },
    }
}

/// The state of the wait after that attempt.
pub open spec fn step_state<T>(w: ReadyWaitView, outcome: Probe<T, Seq<char>>, passed: bool) -> ReadyWaitView {
    let attempt = saturating_inc(w.attempt);
    let log = match outcome {
        Probe::Retry(e) => if passed {
            flush_spec(observe_spec(w.log, attempt, e).0).0
        } else {
            observe_spec(w.log, attempt, e).0
        },
        _ => flush_spec(w.log).0,
    };
    ReadyWaitView { dbg: w.dbg, attempt, timeout: w.timeout, log }
}

/// The debug lines printed for that attempt.
pub open spec fn step_lines<T>(w: ReadyWaitView, outcome: Probe<T, Seq<char>>, passed: bool) -> Seq<Seq<char>> {
    let attempt = saturating_inc(w.attempt);
    match outcome {
        Probe::Ready(_) => flush_spec(w.log).1 + if w.dbg {
            seq![ready_line(attempt)]
        } else {
            Seq::empty()
        },
        Probe::Fatal(_) => flush_spec(w.log).1,
        Probe::Retry(e) => {
            let observed = observe_spec(w.log, attempt, e);
            observed.1 + if passed {
                flush_spec(observed.0).1
            } else {
                Seq::empty()
            }
        },
    }
}

/// What a wait decides after an attempt.
pub enum WaitStep<T> {
    /// Ready, with what the probe built.
    Ready(T),
    /// Given up.
    Failed(WaitStrategyError),
    /// Not ready yet: sleep and make another attempt.
    Again,
}

/// The verdict that a step stands for.
pub open spec fn step_view<T>(s: WaitStep<T>) -> StepVerdict<T> {
    match s {
        WaitStep::Ready(v) => StepVerdict::Ready(v),
        WaitStep::Failed(e) => StepVerdict::Failed(e.0@),
        WaitStep::Again => StepVerdict::Again,
    }
}

/// The decisions of a wait that retries a probe until it reports ready, it reports fatal,
/// or the timeout elapses.
///
/// The driver runs the probe, then hands its outcome and whether the timeout has elapsed to
/// [`ReadyWait::step`], prints the lines it returns, and sleeps when told to go again.
/// Bounded by a deadline rather than an attempt count, because attempts multiplied by delay
/// silently shrinks the real wait whenever an attempt is itself slow.
pub struct ReadyWait {
    dbg: bool,
    attempt: u32,
    timeout: String,
    log: Repeats,
}

impl View for ReadyWait {
    type V = ReadyWaitView;

    closed spec fn view(&self) -> ReadyWaitView {
        ReadyWaitView { dbg: self.dbg, attempt: self.attempt, timeout: self.timeout@, log: self.log@ }
    }
}

impl ReadyWait {
    /// A wait that has made no attempt yet and may take `timeout_secs` seconds and
    /// `timeout_nanos` nanoseconds.
    pub fn new(dbg: bool, timeout_secs: u64, timeout_nanos: u32) -> (w: Self)
        requires
            timeout_nanos < 1_000_000_000,
        ensures
            w@ == (ReadyWaitView {
                dbg,
                attempt: 0,
                timeout: duration_debug(timeout_secs as nat, timeout_nanos as nat),
                log: RepeatsView { dbg, current: None, count: 0 },
            }),
    {
        ReadyWait {
            dbg,
            attempt: 0,
            timeout: duration_text(timeout_secs, timeout_nanos),
            log: Repeats::new(dbg),
        }
    }

    /// How many attempts the wait has made.
    pub fn attempt(&self) -> (n: u32)
        ensures
            n == self@.attempt,
    {
        self.attempt
    }

    /// The number of the attempt about to be made, counting from one; it saturates at
    /// `u32::MAX` as the count does.
    pub fn next_attempt(&self) -> (n: u32)
        ensures
            n == saturating_inc(self@.attempt),
    {
        if self.attempt == u32::MAX {
            self.attempt
        } else {
            self.attempt + 1
        }
    }

    /// Decides after the attempt that produced `outcome`; `deadline_passed` tells whether
    /// the timeout has elapsed since the wait began. Returns the decision and the debug
    /// lines to print.
    pub fn step<T>(&mut self, outcome: Probe<T, String>, deadline_passed: bool) -> (r: (
        WaitStep<T>,
        Vec<String>,
    ))
        ensures
            step_view(r.0) == step_verdict(old(self)@, probe_view(outcome), deadline_passed),
            final(self)@ == step_state(old(self)@, probe_view(outcome), deadline_passed),
            texts(r.1@) == step_lines(old(self)@, probe_view(outcome), deadline_passed),
    {
        let ghost w = self@;
        self.attempt = if self.attempt == u32::MAX {
            self.attempt
        } else {
            self.attempt + 1
        };
        let attempt = self.attempt;
        match outcome {
            Probe::Ready(v) => {
                let mut lines = self.log.flush();
                if self.dbg {
                    let mut line = String::from_str("[wait_until_ready]: ready after ");
                    let n = u64_text(attempt as u64);
                    line.append(n.as_str());
                    line.append(" attempt(s)");
                    lines.push(line);
                }
                assert(texts(lines@) =~= step_lines(w, probe_view(outcome), deadline_passed));
                (WaitStep::Ready(v), lines)
            },
            Probe::Fatal(e) => {
                let lines = self.log.flush();
                let mut m = String::from_str("[wait_until_ready]: attempt ");
                let n = u64_text(attempt as u64);
                m.append(n.as_str());
                m.append(" failed unrecoverably: ");
                m.append(e.as_str());
                (WaitStep::Failed(WaitStrategyError(m)), lines)
            },
            Probe::Retry(e) => {
                let mut lines = self.log.observe(attempt, e.as_str());
                if deadline_passed {
                    let mut flushed = self.log.flush();
                    lines.append(&mut flushed);
                    let mut m = String::from_str("[wait_until_ready]: ");
                    m.append("!!Timeout!!");
                    m.append(" Waited ");
                    m.append(self.timeout.as_str());
                    m.append(" over ");
                    let n = u64_text(attempt as u64);
                    m.append(n.as_str());
                    m.append(" attempt(s). Last error: ");
                    m.append(e.as_str());
                    assert(texts(lines@) =~= step_lines(w, probe_view(outcome), deadline_passed));
                    (WaitStep::Failed(WaitStrategyError(m)), lines)
                } else {
                    assert(texts(lines@) =~= step_lines(w, probe_view(outcome), deadline_passed));
                    (WaitStep::Again, lines)
                }
            },
        }
    }
}

} // verus!
