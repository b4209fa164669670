//! The outcome of a readiness attempt and what the driver hands to a probe.

use vstd::prelude::*;
use vstd::string::*;

use crate::text::{decimal, u64_text};

verus! {

/// The outcome of one readiness attempt.
///
/// Three-way rather than `Result`, because "not yet" and "never" need different handling:
/// retrying a permanent failure burns the whole budget and then reports a timeout, which
/// hides the real cause.
#[derive(Debug, Clone, PartialEq, Eq)]
pub enum Probe<T, E> {
    /// The thing is ready. Carries whatever the probe built, e.g. a connected client.
    Ready(T),
    /// Not ready yet, and worth another attempt.
    Retry(E),
    /// Will not become ready. Stop immediately.
    Fatal(E),
}

/// What the driver knows about the thing being waited on, handed to the probe each attempt.
///
/// `attempt` is the one field no caller can know, which is what lets a probe escalate to
/// [`Probe::Fatal`] without holding state of its own.
#[derive(Debug, Clone, PartialEq, Eq, Hash)]
pub struct ProbeContext {
    id: String,
    host: String,
    port: u16,
    attempt: u32,
}

/// The values a [`ProbeContext`] carries.
pub struct ProbeContextView {
    pub id: Seq<char>,
    pub host: Seq<char>,
    pub port: u16,
    pub attempt: u32,
}

impl View for ProbeContext {
    type V = ProbeContextView;

    closed spec fn view(&self) -> ProbeContextView {
        ProbeContextView { id: self.id@, host: self.host@, port: self.port, attempt: self.attempt }
    }
}

/// How a [`ProbeContext`] displays.
pub open spec fn probe_context_text(c: ProbeContextView) -> Seq<char> {
    "id: "@ + c.id + ", host: "@ + c.host + ", port: "@ + decimal(c.port as nat) + ", attempt: "@
        + decimal(c.attempt as nat)
}

impl ProbeContext {
    /// A context for attempt `attempt`, counting from one, at `host:port` of `id`.
    pub fn new(id: String, host: String, port: u16, attempt: u32) -> (c: Self)
        ensures
            c@ == (ProbeContextView { id: id@, host: host@, port, attempt }),
    {
        ProbeContext { id, host, port, attempt }
    }

    /// The ID of the container or service being waited on.
    pub fn id(&self) -> (r: &str)
        ensures
            r@ == self@.id,
    {
        self.id.as_str()
    }

    /// The host the caller will connect to.
    pub fn host(&self) -> (r: &str)
        ensures
            r@ == self@.host,
    {
        self.host.as_str()
    }

    /// The port the caller will connect to.
    pub fn port(&self) -> (r: u16)
        ensures
            r == self@.port,
    {
        self.port
    }

    /// Which attempt this is, counting from one.
    pub fn attempt(&self) -> (r: u32)
        ensures
            r == self@.attempt,
    {
        self.attempt
    }

    /// The context as it displays: `id: .., host: .., port: .., attempt: ..`.
    pub fn to_string(&self) -> (s: String)
        ensures
            s@ == probe_context_text(self@),
    {
        let mut s = String::from_str("id: ");
        s.append(self.id.as_str());
        s.append(", host: ");
        s.append(self.host.as_str());
        s.append(", port: ");
        let port = u64_text(self.port as u64);
        s.append(port.as_str());
        s.append(", attempt: ");
        let attempt = u64_text(self.attempt as u64);
        s.append(attempt.as_str());
        s
    }
}

/// A caller-supplied readiness condition: the operation the caller is about to perform
/// succeeds, the only predicate that is never wrong about readiness.
pub trait ReadinessProbe {
    /// Reported when the probe is not ready.
    type Error: std::fmt::Display;

    /// Run one attempt.
    fn probe(&self) -> Probe<(), Self::Error>;
}

/// Placeholder so that [`WaitStrategy`](crate::wait::WaitStrategy) has a concrete default
/// probe type. No variant built without a probe ever runs it.
#[derive(Debug, Default, Clone, Copy, Eq, PartialOrd, Ord, PartialEq, Hash)]
pub struct NoProbe;

/// The reason the placeholder gives when it is run after all.
pub open spec fn no_probe_reason() -> Seq<char> {
    "NoProbe is a type-level placeholder and must never be used as a probe"@
}

impl ReadinessProbe for NoProbe {
    type Error = &'static str;

    /// Fatal rather than Ready, so that a path that does reach it fails loudly instead of
    /// reporting every container ready.
    fn probe(&self) -> (r: Probe<(), &'static str>)
        ensures
            r matches Probe::Fatal(m) && m@ == no_probe_reason(),
    {
        Probe::Fatal("NoProbe is a type-level placeholder and must never be used as a probe")
    }
}

} // verus!
