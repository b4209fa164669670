//! Docker containers: their configuration, the `docker` arguments, and the decisions of the
//! driver that starts, waits for, and inspects them.

pub mod args;
pub mod config;
pub mod diagnostics;
pub mod error;
pub mod laws;
pub mod outputs;
pub mod start;

pub use args::{build_run_args, container_port_from_id, exact_name_filter, image_tag};
pub use config::{ContainerConfig, ContainerConfigView};
pub use diagnostics::{
    merge_log_tail, parse_inspect_line, ContainerDiagnostics, ContainerDiagnosticsView,
    INSPECT_FORMAT,
};
pub use error::DockerError;
