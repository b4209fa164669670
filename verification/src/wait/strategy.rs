//! How to tell that a started container or service is ready.

use vstd::prelude::*;
use vstd::string::*;

use crate::text::{debug_quoted, decimal, str_debug, u64_text};
use crate::wait::probe::NoProbe;

verus! {

/// The error of a wait strategy, carrying its message.
#[derive(Debug, Clone, PartialEq, Eq, Hash)]
pub struct WaitStrategyError(pub String);

impl WaitStrategyError {
    /// The message of the error.
    pub fn to_string(&self) -> (s: String)
        ensures
            s@ == self.0@,
    {
        self.0.clone()
    }
}

/// How to tell that a started container or service is ready.
///
/// `P` is the caller's readiness probe, run by [`WaitStrategy::WaitUntilReady`]; the other
/// variants need none, which is what the [`NoProbe`] default stands for.
#[derive(Debug, Clone, PartialEq, Eq, PartialOrd, Ord, Hash)]
pub enum WaitStrategy<P = NoProbe> {
    /// Return at once.
    NoWait,
    /// Wait a fixed number of seconds.
    WaitForDuration(u64),
    /// Wait until the console output contains the text, for at most the given seconds.
    WaitUntilConsoleOutputContains(String, u64),
    /// Wait until the URL answers with a success status, for at most the given seconds.
    WaitForHttpHealthCheck(String, u64),
    /// Wait until the gRPC health check at the URL passes, for at most the given seconds.
    WaitForGrpcHealthCheck(String, u64),
    /// Retry the caller's probe every `retry_delay_ms` milliseconds until it reports ready,
    /// reports fatal, or `timeout_secs` seconds elapse.
    WaitUntilReady { probe: P, timeout_secs: u64, retry_delay_ms: u64 },
}

impl<P> Default for WaitStrategy<P> {
    /// `NoWait` is the default wait strategy.
    fn default() -> (s: Self)
        ensures
            s is NoWait,
    {
        WaitStrategy::NoWait
    }
}

/// `name(text, secs)` with the text quoted.
pub open spec fn named_text_and_secs(name: Seq<char>, text: Seq<char>, secs: u64) -> Seq<char> {
    name + "("@ + debug_quoted(text) + ", "@ + decimal(secs as nat) + ")"@
}

/// How a strategy displays.
pub open spec fn strategy_text<P>(s: WaitStrategy<P>) -> Seq<char> {
    match s {
        WaitStrategy::NoWait => "NoWait"@,
        WaitStrategy::WaitForDuration(secs) => "WaitForDuration("@ + decimal(secs as nat) + ")"@,
        WaitStrategy::WaitUntilConsoleOutputContains(text, secs) => named_text_and_secs(
            "WaitUntilConsoleOutputContains"@,
            text@,
            secs,
        ),
        WaitStrategy::WaitForHttpHealthCheck(url, secs) => named_text_and_secs(
            "WaitForHttpHealthCheck"@,
            url@,
            secs,
        ),
        WaitStrategy::WaitForGrpcHealthCheck(url, secs) => named_text_and_secs(
            "WaitForGrpcHealthCheck"@,
            url@,
            secs,
        ),
        WaitStrategy::WaitUntilReady { timeout_secs, retry_delay_ms, .. } =>
            "WaitUntilReady { timeout_secs: "@ + decimal(timeout_secs as nat)
            + ", retry_delay_ms: "@ + decimal(retry_delay_ms as nat) + " }"@,
    }
}

/// `name(text, secs)` with the text quoted.
fn text_and_secs(name: &str, text: &String, secs: u64) -> (s: String)
    ensures
        s@ == named_text_and_secs(name@, text@, secs),
{
    let mut s = String::from_str(name);
    s.append("(");
    let quoted = str_debug(text.as_str());
    s.append(quoted.as_str());
    s.append(", ");
    let n = u64_text(secs);
    s.append(n.as_str());
    s.append(")");
    s
}

impl<P> WaitStrategy<P> {
    /// The strategy as it displays, such as `NoWait` or `WaitForHttpHealthCheck("url", 10)`.
    pub fn to_string(&self) -> (s: String)
        ensures
            s@ == strategy_text(*self),
    {
        let s = match self {
            WaitStrategy::NoWait => String::from_str("NoWait"),
            WaitStrategy::WaitForDuration(secs) => {
                let mut s = String::from_str("WaitForDuration(");
                let n = u64_text(*secs);
                s.append(n.as_str());
                s.append(")");
                s
            },
            WaitStrategy::WaitUntilConsoleOutputContains(text, secs) => text_and_secs(
                "WaitUntilConsoleOutputContains",
                text,
                *secs,
            ),
            WaitStrategy::WaitForHttpHealthCheck(url, secs) => text_and_secs(
                "WaitForHttpHealthCheck",
                url,
                *secs,
            ),
            WaitStrategy::WaitForGrpcHealthCheck(url, secs) => text_and_secs(
                "WaitForGrpcHealthCheck",
                url,
                *secs,
            ),
            WaitStrategy::WaitUntilReady { timeout_secs, retry_delay_ms, .. } => {
                let mut s = String::from_str("WaitUntilReady { timeout_secs: ");
                let t = u64_text(*timeout_secs);
                s.append(t.as_str());
                s.append(", retry_delay_ms: ");
                let r = u64_text(*retry_delay_ms);
                s.append(r.as_str());
                s.append(" }");
                s
            },
        };
        s
    }
}

} // verus!
