//! Waiting until something is ready: the outcome of a probe, the strategies, the checks
//! behind them, and the decisions of the wait loop.

pub mod checks;
pub mod probe;
pub mod strategy;

pub use checks::{
    build_curl_args, console_ready, console_wait_deadline, http_wait_deadline, logs_arguments,
    logs_spawn_failed, streams_contain,
};
pub use probe::{NoProbe, Probe, ProbeContext, ProbeContextView, ReadinessProbe};
pub use strategy::{WaitStrategy, WaitStrategyError};
pub mod ready;
pub use ready::{ReadyWait, Repeats, WaitStep};
pub mod laws;
