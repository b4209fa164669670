//! The start configuration of a service binary.

use vstd::prelude::*;
use vstd::string::*;

use crate::text::{comma_joined, debug_quoted, decimal, join_comma, str_debug, u64_text};
use crate::wait::probe::NoProbe;
use crate::wait::strategy::{strategy_text, WaitStrategy};

verus! {

/// How to start a service: the program, its arguments and environment, how to tell that it
/// is ready, and the address a caller connects to.
///
/// The address lives here rather than being discovered, because it is a chicken and egg
/// problem: the caller cannot connect until it knows the port, and the driver cannot bind
/// until the caller has chosen one. The config is the single place both sides read.
#[derive(Debug, Clone, Eq, PartialOrd, Ord, PartialEq, Hash)]
pub struct ServiceStartConfig<P = NoProbe> {
    program: &'static str,
    wait_strategy: WaitStrategy<P>,
    program_args: Option<Vec<&'static str>>,
    env_vars: Option<Vec<(String, String)>>,
    /// The host a caller would connect to, handed to a readiness probe.
    host: &'static str,
    /// The port a caller would connect to, handed to a readiness probe. Optional because a
    /// service need not listen on one at all.
    port: Option<u16>,
}

/// The values a [`ServiceStartConfig`] holds.
pub struct ServiceStartConfigView<P> {
    pub program: Seq<char>,
    pub wait_strategy: WaitStrategy<P>,
    pub program_args: Option<Seq<Seq<char>>>,
    pub env_vars: Option<Seq<(Seq<char>, Seq<char>)>>,
    pub host: Seq<char>,
    pub port: Option<u16>,
}

/// The view of optional program arguments.
pub open spec fn opt_args(o: Option<Vec<&'static str>>) -> Option<Seq<Seq<char>>> {
    match o {
        Some(v) => Some(v@.map_values(|s: &'static str| s@)),
        None => None,
    }
}

/// The view of optional environment variables.
pub open spec fn opt_pairs(o: Option<Vec<(String, String)>>) -> Option<Seq<(Seq<char>, Seq<char>)>> {
    match o {
        Some(v) => Some(v@.map_values(|p: (String, String)| (p.0@, p.1@))),
        None => None,
    }
}

impl<P> View for ServiceStartConfig<P> {
    type V = ServiceStartConfigView<P>;

    closed spec fn view(&self) -> ServiceStartConfigView<P> {
        ServiceStartConfigView {
            program: self.program@,
            wait_strategy: self.wait_strategy,
            program_args: opt_args(self.program_args),
            env_vars: opt_pairs(self.env_vars),
            host: self.host@,
            port: self.port,
        }
    }
}

/// How optional environment variables show in `Debug` form.
pub open spec fn pairs_debug(o: Option<Seq<(Seq<char>, Seq<char>)>>) -> Seq<char> {
    match o {
        Some(ps) => "Some(["@ + comma_joined(
            ps.map_values(
                |p: (Seq<char>, Seq<char>)| "("@ + debug_quoted(p.0) + ", "@ + debug_quoted(p.1) + ")"@,
            ),
        ) + "])"@,
        None => "None"@,
    }
}

/// How an optional port shows in `Debug` form.
pub open spec fn port_debug(o: Option<u16>) -> Seq<char> {
    match o {
        Some(p) => "Some("@ + decimal(p as nat) + ")"@,
        None => "None"@,
    }
}

/// How a start configuration displays.
pub open spec fn start_config_text<P>(c: ServiceStartConfigView<P>) -> Seq<char> {
    "ServiceStartConfig { program: "@ + c.program + ", wait_strategy: "@ + strategy_text(
        c.wait_strategy,
    ) + ", env_vars: "@ + pairs_debug(c.env_vars) + ", host: "@ + c.host + ", port: "@
        + port_debug(c.port) + " }"@
}

fn pair_debug_text(p: &(String, String)) -> (s: String)
    ensures
        s@ == "("@ + debug_quoted(p.0@) + ", "@ + debug_quoted(p.1@) + ")"@,
{
    let mut s = String::from_str("(");
    let k = str_debug(p.0.as_str());
    s.append(k.as_str());
    s.append(", ");
    let v = str_debug(p.1.as_str());
    s.append(v.as_str());
    s.append(")");
    s
}

fn pairs_debug_text(o: &Option<Vec<(String, String)>>) -> (s: String)
    ensures
        s@ == pairs_debug(opt_pairs(*o)),
{
    match o {
        None => String::from_str("None"),
        Some(ps) => {
            let ghost want_all = ps@.map_values(|p: (String, String)| (p.0@, p.1@)).map_values(
                |p: (Seq<char>, Seq<char>)| "("@ + debug_quoted(p.0) + ", "@ + debug_quoted(p.1)
                    + ")"@,
            );
            let mut items: Vec<String> = Vec::new();
            let mut i: usize = 0;
            while i < ps.len()
                invariant
                    i <= ps@.len(),
                    items@.len() == i,
                    want_all.len() == ps@.len(),
                    want_all == ps@.map_values(|p: (String, String)| (p.0@, p.1@)).map_values(
                        |p: (Seq<char>, Seq<char>)| "("@ + debug_quoted(p.0) + ", "@
                            + debug_quoted(p.1) + ")"@,
                    ),
                    forall|k: int| 0 <= k < i ==> #[trigger] items@[k]@ == want_all[k],
                decreases ps.len() - i,
            {
                let t = pair_debug_text(&ps[i]);
                items.push(t);
                i = i + 1;
            }
            assert(items@.map_values(|t: String| t@) =~= want_all);
            let mut s = String::from_str("Some([");
            let joined = join_comma(&items);
            s.append(joined.as_str());
            s.append("])");
            s
        },
    }
}

fn port_debug_text(o: Option<u16>) -> (s: String)
    ensures
        s@ == port_debug(o),
{
    match o {
        None => String::from_str("None"),
        Some(p) => {
            let mut s = String::from_str("Some(");
            let n = u64_text(p as u64);
            s.append(n.as_str());
            s.append(")");
            s
        },
    }
}

impl ServiceStartConfig {
    /// A configuration for a service whose wait strategy runs no probe of the caller's.
    pub fn new(
        program: &'static str,
        wait_strategy: WaitStrategy,
        program_args: Option<Vec<&'static str>>,
        env_vars: Option<Vec<(String, String)>>,
        host: &'static str,
        port: Option<u16>,
    ) -> (c: Self)
        ensures
            c@ == (ServiceStartConfigView {
                program: program@,
                wait_strategy,
                program_args: opt_args(program_args),
                env_vars: opt_pairs(env_vars),
                host: host@,
                port,
            }),
    {
        Self::configure(program, wait_strategy, program_args, env_vars, host, port)
    }
}

impl<P> ServiceStartConfig<P> {
    /// A configuration whose wait strategy may run a probe of type `P`.
    pub fn configure(
        program: &'static str,
        wait_strategy: WaitStrategy<P>,
        program_args: Option<Vec<&'static str>>,
        env_vars: Option<Vec<(String, String)>>,
        host: &'static str,
        port: Option<u16>,
    ) -> (c: Self)
        ensures
            c@ == (ServiceStartConfigView {
                program: program@,
                wait_strategy,
                program_args: opt_args(program_args),
                env_vars: opt_pairs(env_vars),
                host: host@,
                port,
            }),
    {
        ServiceStartConfig { program, wait_strategy, program_args, env_vars, host, port }
    }

    pub fn program(&self) -> (r: &'static str)
        ensures
            r@ == self@.program,
    {
        self.program
    }

    pub fn wait_strategy(&self) -> (r: &WaitStrategy<P>)
        ensures
            *r == self@.wait_strategy,
    {
        &self.wait_strategy
    }

    pub fn env_vars(&self) -> (r: &Option<Vec<(String, String)>>)
        ensures
            opt_pairs(*r) == self@.env_vars,
    {
        &self.env_vars
    }

    pub fn program_args(&self) -> (r: &Option<Vec<&'static str>>)
        ensures
            opt_args(*r) == self@.program_args,
    {
        &self.program_args
    }

    /// The host a caller would connect to, handed to a readiness probe.
    pub fn host(&self) -> (r: &'static str)
        ensures
            r@ == self@.host,
    {
        self.host
    }

    /// The port a caller would connect to, handed to a readiness probe.
    pub fn port(&self) -> (r: Option<u16>)
        ensures
            r == self@.port,
    {
        self.port
    }

    /// The configuration as it displays.
    pub fn to_string(&self) -> (s: String)
        ensures
            s@ == start_config_text(self@),
    {
        let mut s = String::from_str("ServiceStartConfig { program: ");
        s.append(self.program);
        s.append(", wait_strategy: ");
        let w = self.wait_strategy.to_string();
        s.append(w.as_str());
        s.append(", env_vars: ");
        let e = pairs_debug_text(&self.env_vars);
        s.append(e.as_str());
        s.append(", host: ");
        s.append(self.host);
        s.append(", port: ");
        let p = port_debug_text(self.port);
        s.append(p.as_str());
        s.append(" }");
        s
    }
}

impl Default for ServiceStartConfig {
    /// An empty program and host, no arguments, environment or port, and no wait.
    fn default() -> (c: Self)
        ensures
            c@ == (ServiceStartConfigView::<NoProbe> {
                program: ""@,
                wait_strategy: WaitStrategy::NoWait,
                program_args: None,
                env_vars: None,
                host: ""@,
                port: None,
            }),
    {
        ServiceStartConfig {
            program: "",
            wait_strategy: WaitStrategy::NoWait,
            program_args: None,
            env_vars: None,
            host: "",
            port: None,
        }
    }
}

} // verus!
