//! The decisions of the driver that gets or starts a container and waits until it is ready.

use vstd::prelude::*;
use vstd::string::*;

use crate::docker::diagnostics::{diagnostics_text, looks_oom, ContainerDiagnostics};
use crate::docker::error::DockerError;
use crate::wait::probe::Probe;
use crate::wait::strategy::WaitStrategy;

verus! {

/// The message for a gRPC health check, which this driver cannot run.
pub open spec fn grpc_unsupported_message() -> Seq<char> {
    "WaitForGrpcHealthCheck needs an async driver and is not supported by docker_utils. Use service_utils, or express the check as WaitUntilReady."@
}

/// Whether the container driver can honour `strategy`: all but the gRPC health check, which
/// needs an async driver and is reported at once rather than after a timeout.
pub fn check_container_wait<P>(strategy: &WaitStrategy<P>) -> (r: Result<(), DockerError>)
    ensures
        (*strategy is WaitForGrpcHealthCheck) <==> r is Err,
        r matches Err(e) ==> e.0@ == grpc_unsupported_message(),
{
    match strategy {
        WaitStrategy::WaitForGrpcHealthCheck(_, _) => Err(
            DockerError::from_message(
                String::from_str(
                    "WaitForGrpcHealthCheck needs an async driver and is not supported by docker_utils. Use service_utils, or express the check as WaitUntilReady.",
                ),
            ),
        ),
        _ => Ok(()),
    }
}

/// The retry message of a console check that has not matched yet.
pub fn console_retry_message(expected_output: &str) -> (s: String)
    ensures
        s@ == "console output does not yet contain '"@ + expected_output@ + "'"@,
{
    let mut s = String::from_str("console output does not yet contain '");
    s.append(expected_output);
    s.append("'");
    s
}

/// The retry message of an HTTP check that has not passed yet. It names the HTTP health
/// check, so that a wait that times out on it says which wait failed.
pub fn http_retry_message(url: &str) -> (s: String)
    ensures
        s@ == "HTTP health check on "@ + url@ + " has not returned a success status"@,
{
    let mut s = String::from_str("HTTP health check on ");
    s.append(url);
    s.append(" has not returned a success status");
    s
}

/// Whether the container died while being waited on, judged from a running check.
///
/// Only a definite "not running" counts: an error means docker did not answer, which is no
/// evidence that the container died, and treating it as death would fail a healthy run on a
/// transient hiccup.
pub fn died_message(container_id: &str, running: Result<bool, DockerError>) -> (r: Option<String>)
    ensures
        (running == Ok::<bool, DockerError>(false)) <==> r is Some,
        r matches Some(m) ==> m@ == "container '"@ + container_id@ + "' stopped while waiting"@,
{
    match running {
        Ok(false) => {
            let mut m = String::from_str("container '");
            m.append(container_id);
            m.append("' stopped while waiting");
            Some(m)
        },
        _ => None,
    }
}

/// The outcome of one attempt of a container wait: fatal as soon as the container died,
/// otherwise whatever the check found.
pub fn poll_outcome(died: Option<String>, check: Probe<(), String>) -> (r: Probe<(), String>)
    ensures
        match died {
            Some(m) => r == Probe::<(), String>::Fatal(m),
            None => r == check,
        },
{
    match died {
        Some(m) => Probe::Fatal(m),
        None => check,
    }
}

/// A wait failure, attributed to the container.
pub fn container_wait_error(container_id: &str, error: &str) -> (e: DockerError)
    ensures
        e.0@ == "container '"@ + container_id@ + "': "@ + error@,
{
    let mut m = String::from_str("container '");
    m.append(container_id);
    m.append("': ");
    m.append(error);
    DockerError(m)
}

/// A fixed wait that could not be waited out, attributed to the container.
pub fn container_sleep_error(container_id: &str, error: &str) -> (e: DockerError)
    ensures
        e.0@ == "container '"@ + container_id@ + "' could not be waited for: "@ + error@,
{
    let mut m = String::from_str("container '");
    m.append(container_id);
    m.append("' could not be waited for: ");
    m.append(error);
    DockerError(m)
}

/// The failure of a readiness probe that panicked, attributed to the container.
pub fn container_probe_panicked(container_id: &str) -> (e: DockerError)
    ensures
        e.0@ == "container '"@ + container_id@ + "': the readiness probe panicked"@,
{
    let mut m = String::from_str("container '");
    m.append(container_id);
    m.append("': the readiness probe panicked");
    DockerError(m)
}

/// A wait failure with the container's post-mortem attached.
pub open spec fn explained_failure(error: Seq<char>, diagnostics: Result<ContainerDiagnostics, DockerError>) -> Seq<char> {
    match diagnostics {
        Ok(d) => if looks_oom(d@) {
            error + "\ncontainer was OOM-killed, raise the memory limit\n"@ + diagnostics_text(d@)
        } else {
            error + "\n"@ + diagnostics_text(d@)
        },
        Err(_) => error + " (diagnostics unavailable: the container was already removed)"@,
    }
}

/// Attaches the container's post-mortem to a wait failure. An OOM kill two seconds into a
/// long wait would otherwise be reported as a timeout, which is the symptom and not the
/// cause. It has to happen at once: containers carry `--rm`, so Docker reaps them within
/// seconds of the exit that explains the failure.
pub fn explain_wait_failure(error: &str, diagnostics: Result<ContainerDiagnostics, DockerError>) -> (e: DockerError)
    ensures
        e.0@ == explained_failure(error@, diagnostics),
{
    let mut m = String::from_str(error);
    match &diagnostics {
        Ok(d) => {
            if d.looks_oom_killed() {
                m.append("\ncontainer was OOM-killed, raise the memory limit\n");
            } else {
                m.append("\n");
            }
            let text = d.to_string();
            m.append(text.as_str());
        },
        Err(_) => {
            m.append(" (diagnostics unavailable: the container was already removed)");
        },
    }
    DockerError(m)
}

/// Whether a running container has to be removed before a setup: it runs an image whose tag
/// is not the configured one.
pub fn must_replace_before_setup(running: bool, uses_target_tag: bool) -> (r: bool)
    ensures
        r == (running && !uses_target_tag),
{
    running && !uses_target_tag
}

/// Where the get-or-start sequence of a container stands.
#[derive(Debug, Clone, Copy, PartialEq, Eq, Structural)]
pub enum StartPhase {
    /// Asked whether the container is running.
    CheckingRunning,
    /// Waiting on a running container that is to be reused.
    WaitingReused,
    /// Reading the name and port of the reused container.
    GettingReused,
    /// Removing a running container that is not to be reused.
    Removing,
    /// Asked whether the container is starting.
    CheckingStarting,
    /// Waiting on a container that was starting.
    WaitingStarting,
    /// Asked whether the container that was starting now runs.
    RecheckingRunning,
    /// Reading the name and port of the container that came up.
    GettingStarted,
    /// Pulling the image.
    Pulling,
    /// Starting a new container.
    Starting,
    /// Finished.
    Done,
}

/// What the driver does next.
pub enum StartAction {
    /// Check whether the container is running.
    CheckRunning,
    /// Wait for the container with its wait strategy.
    WaitForContainer,
    /// Read the name and port of the running container.
    GetRunningContainer,
    /// Stop and remove the container.
    StopAndRemove,
    /// Check whether the container is starting.
    CheckStarting,
    /// Pull the image.
    Pull,
    /// Start a new container and wait for it.
    Start,
    /// Return this result.
    Finish(Result<(String, u16), DockerError>),
}

/// What the last action found.
pub enum StartEvent {
    /// Whether the container is running.
    Running(Result<bool, DockerError>),
    /// The end of a wait.
    Waited(Result<(), DockerError>),
    /// The name and port of the running container.
    Got(Result<(String, u16), DockerError>),
    /// The end of a removal.
    Removed(Result<(), DockerError>),
    /// Whether the container is starting.
    StartingFound(Result<bool, DockerError>),
    /// The end of a pull.
    Pulled(Result<(), DockerError>),
    /// The name and port of the new container.
    Started(Result<(String, u16), DockerError>),
}

/// Whether `event` answers the action of `phase`.
pub open spec fn answers(phase: StartPhase, event: StartEvent) -> bool {
    match phase {
        StartPhase::CheckingRunning | StartPhase::RecheckingRunning => event is Running,
        StartPhase::WaitingReused | StartPhase::WaitingStarting => event is Waited,
        StartPhase::GettingReused | StartPhase::GettingStarted => event is Got,
        StartPhase::Removing => event is Removed,
        StartPhase::CheckingStarting => event is StartingFound,
        StartPhase::Pulling => event is Pulled,
        StartPhase::Starting => event is Started,
        StartPhase::Done => false,
    }
}

/// The decision of the sequence: after `event` in `phase`, for a configuration that does or
/// does not reuse a running container, the next phase and action. An error ends the
/// sequence with that error.
pub open spec fn start_next(phase: StartPhase, reuse: bool, event: StartEvent) -> (StartPhase, StartAction) {
    match event {
        StartEvent::Running(Err(e)) => (StartPhase::Done, StartAction::Finish(Err(e))),
        StartEvent::Waited(Err(e)) => (StartPhase::Done, StartAction::Finish(Err(e))),
        StartEvent::Removed(Err(e)) => (StartPhase::Done, StartAction::Finish(Err(e))),
        StartEvent::StartingFound(Err(e)) => (StartPhase::Done, StartAction::Finish(Err(e))),
        StartEvent::Pulled(Err(e)) => (StartPhase::Done, StartAction::Finish(Err(e))),
        StartEvent::Got(r) => (StartPhase::Done, StartAction::Finish(r)),
        StartEvent::Started(r) => (StartPhase::Done, StartAction::Finish(r)),
        StartEvent::Running(Ok(running)) => if phase == StartPhase::CheckingRunning {
            if running && reuse {
                (StartPhase::WaitingReused, StartAction::WaitForContainer)
            } else if running {
                (StartPhase::Removing, StartAction::StopAndRemove)
            } else {
                (StartPhase::CheckingStarting, StartAction::CheckStarting)
            }
        } else {
            if running {
                (StartPhase::GettingStarted, StartAction::GetRunningContainer)
            } else {
                (StartPhase::Pulling, StartAction::Pull)
            }
        },
        StartEvent::Waited(Ok(())) => if phase == StartPhase::WaitingReused {
            (StartPhase::GettingReused, StartAction::GetRunningContainer)
        } else {
            (StartPhase::RecheckingRunning, StartAction::CheckRunning)
        },
        StartEvent::Removed(Ok(())) => (StartPhase::CheckingStarting, StartAction::CheckStarting),
        StartEvent::StartingFound(Ok(starting)) => if starting {
            (StartPhase::WaitingStarting, StartAction::WaitForContainer)
        } else {
            (StartPhase::Pulling, StartAction::Pull)
        },
        StartEvent::Pulled(Ok(())) => (StartPhase::Starting, StartAction::Start),
    }
}

/// The decisions of the driver that gets an existing container or starts a new one.
///
/// It checks whether the container runs; reuses it after waiting for it when the
/// configuration asks for reuse, and removes it otherwise; then checks whether one is
/// starting and hands that one back once it came up, since starting a second container
/// under the same name would be rejected; and otherwise pulls the image and starts a new
/// container. A running container is not a ready one, so a reused container is waited for
/// too.
pub struct GetOrStart {
    phase: StartPhase,
    reuse: bool,
}

impl GetOrStart {
    /// The phase the sequence is in.
    pub closed spec fn phase(&self) -> StartPhase {
        self.phase
    }

    /// Whether a running container is reused.
    pub closed spec fn reuses(&self) -> bool {
        self.reuse
    }

    /// Begins the sequence; its first action is to check whether the container runs.
    pub fn begin(reuse: bool) -> (r: (Self, StartAction))
        ensures
            r.0.phase() == StartPhase::CheckingRunning,
            r.0.reuses() == reuse,
            r.1 is CheckRunning,
    {
        (GetOrStart { phase: StartPhase::CheckingRunning, reuse }, StartAction::CheckRunning)
    }

    /// Whether the sequence has finished.
    pub fn is_done(&self) -> (b: bool)
        ensures
            b == (self.phase() == StartPhase::Done),
    {
        self.phase == StartPhase::Done
    }

    /// Whether `event` answers the action the sequence is waiting on, as [`GetOrStart::next`]
    /// requires.
    pub fn expects(&self, event: &StartEvent) -> (b: bool)
        ensures
            b == answers(self.phase(), *event),
    {
        match self.phase {
            StartPhase::CheckingRunning | StartPhase::RecheckingRunning => matches!(event, StartEvent::Running(_)),
            StartPhase::WaitingReused | StartPhase::WaitingStarting => matches!(event, StartEvent::Waited(_)),
            StartPhase::GettingReused | StartPhase::GettingStarted => matches!(event, StartEvent::Got(_)),
            StartPhase::Removing => matches!(event, StartEvent::Removed(_)),
            StartPhase::CheckingStarting => matches!(event, StartEvent::StartingFound(_)),
            StartPhase::Pulling => matches!(event, StartEvent::Pulled(_)),
            StartPhase::Starting => matches!(event, StartEvent::Started(_)),
            StartPhase::Done => false,
        }
    }

    /// Takes what the last action found and decides the next action.
    pub fn next(&mut self, event: StartEvent) -> (action: StartAction)
        requires
            answers(old(self).phase(), event),
        ensures
            final(self).reuses() == old(self).reuses(),
            (final(self).phase(), action) == start_next(old(self).phase(), old(self).reuses(), event),
    {
        let reuse = self.reuse;
        let (phase, action) = match event {
            StartEvent::Running(Err(e)) => (StartPhase::Done, StartAction::Finish(Err(e))),
            StartEvent::Waited(Err(e)) => (StartPhase::Done, StartAction::Finish(Err(e))),
            StartEvent::Removed(Err(e)) => (StartPhase::Done, StartAction::Finish(Err(e))),
            StartEvent::StartingFound(Err(e)) => (StartPhase::Done, StartAction::Finish(Err(e))),
            StartEvent::Pulled(Err(e)) => (StartPhase::Done, StartAction::Finish(Err(e))),
            StartEvent::Got(r) => (StartPhase::Done, StartAction::Finish(r)),
            StartEvent::Started(r) => (StartPhase::Done, StartAction::Finish(r)),
            StartEvent::Running(Ok(running)) => if self.phase == StartPhase::CheckingRunning {
                if running && reuse {
                    (StartPhase::WaitingReused, StartAction::WaitForContainer)
                } else if running {
                    (StartPhase::Removing, StartAction::StopAndRemove)
                } else {
                    (StartPhase::CheckingStarting, StartAction::CheckStarting)
                }
            } else {
                if running {
                    (StartPhase::GettingStarted, StartAction::GetRunningContainer)
                } else {
                    (StartPhase::Pulling, StartAction::Pull)
                }
            },
            StartEvent::Waited(Ok(())) => if self.phase == StartPhase::WaitingReused {
                (StartPhase::GettingReused, StartAction::GetRunningContainer)
            } else {
                (StartPhase::RecheckingRunning, StartAction::CheckRunning)
            },
            StartEvent::Removed(Ok(())) => (StartPhase::CheckingStarting, StartAction::CheckStarting),
            StartEvent::StartingFound(Ok(starting)) => if starting {
                (StartPhase::WaitingStarting, StartAction::WaitForContainer)
            } else {
                (StartPhase::Pulling, StartAction::Pull)
            },
            StartEvent::Pulled(Ok(())) => (StartPhase::Starting, StartAction::Start),
        };
        self.phase = phase;
        action
    }
}

} // verus!
