//! The other `docker` commands of the driver: their arguments, and what their outcomes mean.
//! The driver runs a command and hands its exit status and captured output to the function
//! that reads them.

use vstd::prelude::*;
use vstd::string::*;

use crate::docker::args::{container_port_from_id, image_tag, image_tag_of, name_filter, port_of_id, port_error_message, texts, exact_name_filter};
use crate::docker::diagnostics::{parse_inspect_line, inspect_fields, short_inspect_message, diagnostics_from, opt_string, INSPECT_FORMAT};
use crate::docker::error::DockerError;
use crate::text::{
    code_debug, code_debug_text, decimal, equal_ignoring_ascii_case, eq_ignore_ascii_case_text,
    lossy_utf8, trim, trimmed_lossy, u64_text, utf8_lossy,
};

verus! {

/// `docker ps` listing the name of the container `id` if it is running.
pub open spec fn running_ps_args(id: Seq<char>) -> Seq<Seq<char>> {
    seq!["ps"@, "--filter=status=running"@, name_filter(id), "--format={{.Names}}"@]
}

pub fn running_ps_arguments(container_id: &str) -> (args: Vec<String>)
    ensures
        texts(args@) == running_ps_args(container_id@),
{
    let mut args: Vec<String> = Vec::new();
    args.push(String::from_str("ps"));
    args.push(String::from_str("--filter=status=running"));
    args.push(exact_name_filter(container_id));
    args.push(String::from_str("--format={{.Names}}"));
    assert(texts(args@) =~= running_ps_args(container_id@));
    args
}

/// `docker ps` listing the image of the container `id`.
pub open spec fn image_ps_args(id: Seq<char>) -> Seq<Seq<char>> {
    seq!["ps"@, name_filter(id), "--format={{.Image}}"@]
}

pub fn image_ps_arguments(container_id: &str) -> (args: Vec<String>)
    ensures
        texts(args@) == image_ps_args(container_id@),
{
    let mut args: Vec<String> = Vec::new();
    args.push(String::from_str("ps"));
    args.push(exact_name_filter(container_id));
    args.push(String::from_str("--format={{.Image}}"));
    assert(texts(args@) =~= image_ps_args(container_id@));
    args
}

/// The text of a failed command: its exit code and its trimmed stderr.
pub open spec fn failure_detail(code: Option<i32>, stderr: Seq<u8>) -> Seq<char> {
    " (exit "@ + code_debug(code) + "): "@ + trim(lossy_utf8(stderr))
}

fn failure_detail_text(code: Option<i32>, stderr: &[u8]) -> (s: String)
    ensures
        s@ == failure_detail(code, stderr@),
{
    let mut s = String::from_str(" (exit ");
    let c = code_debug_text(code);
    s.append(c.as_str());
    s.append("): ");
    let e = trimmed_lossy(stderr);
    s.append(e.as_str());
    s
}

/// Whether `docker ps` listed the running container: it succeeded and printed a name.
pub open spec fn listed_as_running(stdout: Seq<u8>) -> bool {
    trim(lossy_utf8(stdout)).len() > 0
}

/// Reads the outcome of the running-container `docker ps`. The container ID is matched
/// exactly, by the anchored filter of the arguments.
pub fn running_from_ps(
    container_id: &str,
    success: bool,
    code: Option<i32>,
    stdout: &[u8],
    stderr: &[u8],
) -> (r: Result<bool, DockerError>)
    ensures
        success ==> r == Ok::<bool, DockerError>(listed_as_running(stdout@)),
        !success ==> r is Err && r->Err_0.0@ == "[is_container_running]: docker ps failed for "@
            + container_id@ + failure_detail(code, stderr@),
{
    if success {
        let names = trimmed_lossy(stdout);
        Ok(names.as_str().unicode_len() > 0)
    } else {
        let mut m = String::from_str("[is_container_running]: docker ps failed for ");
        m.append(container_id);
        let d = failure_detail_text(code, stderr);
        m.append(d.as_str());
        Err(DockerError(m))
    }
}

/// The error of a `docker ps` that could not be run for `id`.
pub fn ps_spawn_failed(container_id: &str, error: &str) -> (e: DockerError)
    ensures
        e.0@ == "[is_container_running]: Error getting container "@ + container_id@ + ": "@
            + error@,
{
    let mut m = String::from_str("[is_container_running]: Error getting container ");
    m.append(container_id);
    m.append(": ");
    m.append(error);
    DockerError(m)
}

/// Whether `docker logs` shows a container that is starting: the command succeeded and the
/// container has already written something to stdout.
pub open spec fn shows_starting(success: bool, stdout: Seq<u8>) -> bool {
    success && stdout.len() > 0
}

pub fn starting_from_logs(success: bool, stdout: &[u8]) -> (b: bool)
    ensures
        b == shows_starting(success, stdout@),
{
    success && stdout.len() > 0
}

/// The message for a container that is not running when it should be.
pub open spec fn no_container_message(context: Seq<char>, id: Seq<char>) -> Seq<char> {
    context + ": Error no container found for ID: "@ + id
}

/// The error for a container that is not running when it should be.
pub fn no_container_error(context: &str, container_id: &str) -> (e: DockerError)
    ensures
        e.0@ == no_container_message(context@, container_id@),
{
    let mut m = String::from_str(context);
    m.append(": Error no container found for ID: ");
    m.append(container_id);
    DockerError(m)
}

/// The name and port of the running container `id`, whose port is read from the ID.
pub fn running_container(container_id: &str, running: bool) -> (r: Result<(String, u16), DockerError>)
    ensures
        !running ==> r is Err && r->Err_0.0@ == no_container_message(
            "[get_running_container]"@,
            container_id@,
        ),
        running ==> match r {
            Ok(found) => found.0@ == container_id@ && port_of_id(container_id@) == Some(
                found.1 as nat,
            ),
            Err(e) => port_of_id(container_id@) is None && e.0@ == port_error_message(
                container_id@,
            ),
        },
{
    if !running {
        return Err(no_container_error("[get_running_container]", container_id));
    }
    match container_port_from_id(container_id) {
        Ok(port) => Ok((String::from_str(container_id), port)),
        Err(e) => Err(e),
    }
}

/// What the image `docker ps` of a running container says its tag is.
pub open spec fn tag_from_ps(id: Seq<char>, success: bool, code: Option<i32>, stdout: Seq<u8>, stderr: Seq<u8>) -> Result<Seq<char>, Seq<char>> {
    let image = lossy_utf8(stdout);
    if !success {
        Err("[get_container_image_tag]: docker ps failed for "@ + id + failure_detail(code, stderr))
    } else if trim(image).len() == 0 {
        Err("[get_container_image_tag]: Error no image found for container ID: "@ + id)
    } else {
        match image_tag_of(image) {
            Some(tag) => Ok(tag),
            None => Err(
                "[get_container_image_tag]: Image "@ + trim(image) + " for container ID "@ + id
                    + " carries no tag"@,
            ),
        }
    }
}

/// Reads the outcome of the image `docker ps` of a running container into its tag.
pub fn image_tag_from_ps(
    container_id: &str,
    success: bool,
    code: Option<i32>,
    stdout: &[u8],
    stderr: &[u8],
) -> (r: Result<String, DockerError>)
    ensures
        match r {
            Ok(tag) => tag_from_ps(container_id@, success, code, stdout@, stderr@) == Ok::<
                Seq<char>,
                Seq<char>,
            >(tag@),
            Err(e) => tag_from_ps(container_id@, success, code, stdout@, stderr@) == Err::<
                Seq<char>,
                Seq<char>,
            >(e.0@),
        },
{
    if !success {
        let mut m = String::from_str("[get_container_image_tag]: docker ps failed for ");
        m.append(container_id);
        let d = failure_detail_text(code, stderr);
        m.append(d.as_str());
        return Err(DockerError(m));
    }
    let image = utf8_lossy(stdout);
    let trimmed = trimmed_lossy(stdout);
    if trimmed.as_str().unicode_len() == 0 {
        let mut m = String::from_str(
            "[get_container_image_tag]: Error no image found for container ID: ",
        );
        m.append(container_id);
        return Err(DockerError(m));
    }
    match image_tag(image.as_str()) {
        Some(tag) => Ok(String::from_str(tag)),
        None => {
            let mut m = String::from_str("[get_container_image_tag]: Image ");
            m.append(trimmed.as_str());
            m.append(" for container ID ");
            m.append(container_id);
            m.append(" carries no tag");
            Err(DockerError(m))
        },
    }
}

/// The error of an image `docker ps` that could not be run.
pub fn image_ps_spawn_failed(container_id: &str, error: &str) -> (e: DockerError)
    ensures
        e.0@ == "[get_container_image_tag]: Error getting container image for "@ + container_id@
            + ": "@ + error@,
{
    let mut m = String::from_str("[get_container_image_tag]: Error getting container image for ");
    m.append(container_id);
    m.append(": ");
    m.append(error);
    DockerError(m)
}

/// Whether a running container uses `target` as its tag, compared regardless of ASCII case.
pub fn uses_target_tag(container_id: &str, tag: Result<String, DockerError>, target: &str) -> (r:
    Result<bool, DockerError>)
    ensures
        match tag {
            Ok(t) => r == Ok::<bool, DockerError>(equal_ignoring_ascii_case(t@, target@)),
            Err(e) => r is Err && r->Err_0.0@
                == "[check_if_container_uses_target_tag]: Error getting container_tag for container ID: "@
                + container_id@ + " "@ + e.0@,
        },
{
    match tag {
        Ok(t) => Ok(eq_ignore_ascii_case_text(t.as_str(), target)),
        Err(e) => {
            let mut m = String::from_str(
                "[check_if_container_uses_target_tag]: Error getting container_tag for container ID: ",
            );
            m.append(container_id);
            m.append(" ");
            m.append(e.0.as_str());
            Err(DockerError(m))
        },
    }
}

/// What stopping a container needs, given whether it is running.
pub enum StopPlan {
    /// Report that the container to stop does not exist.
    Missing(DockerError),
    /// Run `docker` with these arguments.
    Run(Vec<String>),
}

/// The arguments that stop `id`: `rm -f` when it is to be deleted, `stop` otherwise.
pub open spec fn stop_args(id: Seq<char>, delete: bool) -> Seq<Seq<char>> {
    if delete {
        seq!["rm"@, "-f"@, id]
    } else {
        seq!["stop"@, id]
    }
}

/// Decides how to stop the container `id`: a container that is not running is reported as
/// missing, whether or not it was to be deleted, since the caller asked to stop a specific
/// container.
pub fn plan_stop(container_id: &str, running: bool, delete: bool) -> (p: StopPlan)
    ensures
        !running ==> (p matches StopPlan::Missing(e) && e.0@ == "Container doesn't exists: "@
            + container_id@),
        running ==> (p matches StopPlan::Run(args) && texts(args@) == stop_args(
            container_id@,
            delete,
        )),
{
    if !running {
        let mut m = String::from_str("Container doesn't exists: ");
        m.append(container_id);
        return StopPlan::Missing(DockerError(m));
    }
    let mut args: Vec<String> = Vec::new();
    if delete {
        args.push(String::from_str("rm"));
        args.push(String::from_str("-f"));
    } else {
        args.push(String::from_str("stop"));
    }
    args.push(String::from_str(container_id));
    assert(texts(args@) =~= stop_args(container_id@, delete));
    StopPlan::Run(args)
}

/// Reads the outcome of the stop command. Its status is checked, so that a container that
/// failed to stop is not reported as stopped.
pub fn stop_outcome(container_id: &str, success: bool, code: Option<i32>, stderr: &[u8]) -> (r: Result<(), DockerError>)
    ensures
        success <==> r is Ok,
        !success ==> r->Err_0.0@ == "[stop_container]: Failed to stop container "@
            + container_id@ + failure_detail(code, stderr@),
{
    if success {
        return Ok(());
    }
    let mut m = String::from_str("[stop_container]: Failed to stop container ");
    m.append(container_id);
    let d = failure_detail_text(code, stderr);
    m.append(d.as_str());
    Err(DockerError(m))
}

/// The error of a stop command that could not be run.
pub fn stop_spawn_failed(container_id: &str, error: &str) -> (e: DockerError)
    ensures
        e.0@ == "[stop_container]: Error stopping container "@ + container_id@ + ": "@ + error@,
{
    let mut m = String::from_str("[stop_container]: Error stopping container ");
    m.append(container_id);
    m.append(": ");
    m.append(error);
    DockerError(m)
}

/// The arguments of `docker pull` for an image, on a platform if one is given.
pub open spec fn pull_args(image: Seq<char>, platform: Option<Seq<char>>) -> Seq<Seq<char>> {
    seq!["pull"@] + match platform {
        Some(p) => seq!["--platform"@, p],
        None => Seq::empty(),
    } + seq![image]
}

pub fn pull_arguments(image: &str, platform: Option<&str>) -> (args: Vec<String>)
    ensures
        texts(args@) == pull_args(
            image@,
            match platform {
                Some(p) => Some(p@),
                None => None,
            },
        ),
{
    let mut args: Vec<String> = Vec::new();
    args.push(String::from_str("pull"));
    if let Some(p) = platform {
        args.push(String::from_str("--platform"));
        args.push(String::from_str(p));
    }
    args.push(String::from_str(image));
    assert(texts(args@) =~= pull_args(
        image@,
        match platform {
            Some(p) => Some(p@),
            None => None,
        },
    ));
    args
}

/// Reads the outcome of `docker pull` for the container `id`.
pub fn pull_outcome(container_id: &str, success: bool, stderr: &[u8]) -> (r: Result<(), DockerError>)
    ensures
        success <==> r is Ok,
        !success ==> r->Err_0.0@ == "Error starting container "@ + container_id@ + ": "@
            + lossy_utf8(stderr@),
{
    if success {
        return Ok(());
    }
    let mut m = String::from_str("Error starting container ");
    m.append(container_id);
    m.append(": ");
    let e = utf8_lossy(stderr);
    m.append(e.as_str());
    Err(DockerError(m))
}

/// The arguments of the prune: every stopped container, with its volumes and networks.
pub open spec fn prune_args() -> Seq<Seq<char>> {
    seq!["system"@, "prune"@, "--all"@, "--force"@]
}

pub fn prune_arguments() -> (args: Vec<String>)
    ensures
        texts(args@) == prune_args(),
{
    let mut args: Vec<String> = Vec::new();
    args.push(String::from_str("system"));
    args.push(String::from_str("prune"));
    args.push(String::from_str("--all"));
    args.push(String::from_str("--force"));
    assert(texts(args@) =~= prune_args());
    args
}

/// Reads the outcome of the prune. It is waited for, so that a failure reported by Docker is
/// not discarded.
pub fn prune_outcome(success: bool, code: Option<i32>, stderr: &[u8]) -> (r: Result<(), DockerError>)
    ensures
        success <==> r is Ok,
        !success ==> r->Err_0.0@ == "Error pruning containers: docker system prune failed"@
            + failure_detail(code, stderr@),
{
    if success {
        return Ok(());
    }
    let mut m = String::from_str("Error pruning containers: docker system prune failed");
    let d = failure_detail_text(code, stderr);
    m.append(d.as_str());
    Err(DockerError(m))
}

/// The error of a prune that could not be run.
pub fn prune_spawn_failed(error: &str) -> (e: DockerError)
    ensures
        e.0@ == "Error pruning containers: "@ + error@,
{
    let mut m = String::from_str("Error pruning containers: ");
    m.append(error);
    DockerError(m)
}

/// Reads the outcome of `docker run`. A failure is surfaced with its cause rather than left to
/// show up as the timeout of a wait for a container that was never started.
pub fn run_outcome(container_id: &str, success: bool, code: Option<i32>, stderr: &[u8]) -> (r: Result<(), DockerError>)
    ensures
        success <==> r is Ok,
        !success ==> r->Err_0.0@ == "Error starting container "@ + container_id@
            + ": docker run failed"@ + failure_detail(code, stderr@),
{
    if success {
        return Ok(());
    }
    let mut m = String::from_str("Error starting container ");
    m.append(container_id);
    m.append(": docker run failed");
    let d = failure_detail_text(code, stderr);
    m.append(d.as_str());
    Err(DockerError(m))
}

/// The error of a `docker run` that could not be spawned.
pub fn run_spawn_failed(container_id: &str, error: &str) -> (e: DockerError)
    ensures
        e.0@ == "Error starting container "@ + container_id@ + ": failed to spawn docker run: "@
            + error@,
{
    let mut m = String::from_str("Error starting container ");
    m.append(container_id);
    m.append(": failed to spawn docker run: ");
    m.append(error);
    DockerError(m)
}

/// The arguments of the `docker inspect` behind a post-mortem.
pub open spec fn inspect_args(id: Seq<char>) -> Seq<Seq<char>> {
    seq!["inspect"@, "--type=container"@, "--format"@, INSPECT_FORMAT@, id]
}

pub fn inspect_arguments(container_id: &str) -> (args: Vec<String>)
    ensures
        texts(args@) == inspect_args(container_id@),
{
    let mut args: Vec<String> = Vec::new();
    args.push(String::from_str("inspect"));
    args.push(String::from_str("--type=container"));
    args.push(String::from_str("--format"));
    args.push(String::from_str(INSPECT_FORMAT));
    args.push(String::from_str(container_id));
    assert(texts(args@) =~= inspect_args(container_id@));
    args
}

/// The arguments of the `docker logs` that captures the last `tail` lines.
pub open spec fn log_tail_args(id: Seq<char>, tail: u64) -> Seq<Seq<char>> {
    seq!["logs"@, "--tail"@, decimal(tail as nat), id]
}

pub fn log_tail_arguments(container_id: &str, tail: u64) -> (args: Vec<String>)
    ensures
        texts(args@) == log_tail_args(container_id@, tail),
{
    let mut args: Vec<String> = Vec::new();
    args.push(String::from_str("logs"));
    args.push(String::from_str("--tail"));
    args.push(u64_text(tail));
    args.push(String::from_str(container_id));
    assert(texts(args@) =~= log_tail_args(container_id@, tail));
    args
}

/// Reads the outcome of the post-mortem `docker inspect`, with the log tail if one could be
/// captured. An inspect that failed means the container is gone, which is an error rather
/// than a fabricated answer.
pub fn diagnostics_from_inspect(
    container_id: &str,
    success: bool,
    stdout: &[u8],
    stderr: &[u8],
    logs: Option<String>,
) -> (r: Result<crate::docker::diagnostics::ContainerDiagnostics, DockerError>)
    ensures
        !success ==> r is Err && r->Err_0.0@ == "docker inspect failed for '"@ + container_id@
            + "': "@ + trim(lossy_utf8(stderr@)),
        success ==> match r {
            Ok(d) => inspect_fields(lossy_utf8(stdout@)).len() >= 7 && d@ == diagnostics_from(
                inspect_fields(lossy_utf8(stdout@)),
                opt_string(logs),
            ),
            Err(e) => inspect_fields(lossy_utf8(stdout@)).len() < 7 && e.0@
                == short_inspect_message(inspect_fields(lossy_utf8(stdout@)).len()),
        },
{
    if !success {
        let mut m = String::from_str("docker inspect failed for '");
        m.append(container_id);
        m.append("': ");
        let e = trimmed_lossy(stderr);
        m.append(e.as_str());
        return Err(DockerError(m));
    }
    let line = utf8_lossy(stdout);
    parse_inspect_line(line.as_str(), logs)
}

/// The error of a `docker inspect` that could not be run.
pub fn inspect_spawn_failed(error: &str) -> (e: DockerError)
    ensures
        e.0@ == "failed to run docker inspect: "@ + error@,
{
    let mut m = String::from_str("failed to run docker inspect: ");
    m.append(error);
    DockerError(m)
}


/// The error of a `docker pull` that could not be run, naming the container it was for.
pub fn pull_spawn_failed(container_id: &str, error: &str) -> (e: DockerError)
    ensures
        e.0@ == "Error pulling container image "@ + container_id@ + ": "@ + error@,
{
    let mut m = String::from_str("Error pulling container image ");
    m.append(container_id);
    m.append(": ");
    m.append(error);
    DockerError(m)
}

/// The arguments of the command that tells whether Docker can be reached.
pub open spec fn info_args() -> Seq<Seq<char>> {
    seq!["info"@]
}

pub fn info_arguments() -> (args: Vec<String>)
    ensures
        texts(args@) == info_args(),
{
    let mut args: Vec<String> = Vec::new();
    args.push(String::from_str("info"));
    assert(texts(args@) =~= info_args());
    args
}

/// Reads the outcome of `docker info`: Docker can be reached exactly when it exited with
/// code 0; otherwise the error carries the exit code and the trimmed stderr.
pub fn info_outcome(code: Option<i32>, stderr: &[u8]) -> (r: Result<(), DockerError>)
    ensures
        (code == Some(0i32)) <==> r is Ok,
        r matches Err(e) ==> e.0@ == "Cannot connect to Docker (docker info exited "@
            + code_debug(code) + "): "@ + trim(lossy_utf8(stderr@)),
{
    match code {
        Some(0) => Ok(()),
        _ => {
            let mut m = String::from_str("Cannot connect to Docker (docker info exited ");
            let c = code_debug_text(code);
            m.append(c.as_str());
            m.append("): ");
            let e = trimmed_lossy(stderr);
            m.append(e.as_str());
            Err(DockerError(m))
        },
    }
}

/// The error of a `docker info` that could not be run, as when the Docker CLI is missing.
pub fn info_spawn_failed(error: &str) -> (e: DockerError)
    ensures
        e.0@ == "Failed to check if Docker is running due to error: "@ + error@,
{
    let mut m = String::from_str("Failed to check if Docker is running due to error: ");
    m.append(error);
    DockerError(m)
}

/// The ID and port handed back for a container that was started and came up.
pub fn started_container(container_id: &str, connection_port: u16) -> (r: (String, u16))
    ensures
        r.0@ == container_id@,
        r.1 == connection_port,
{
    (String::from_str(container_id), connection_port)
}

/// The arguments of the `docker ps -a` that a debug run lists after a start.
pub open spec fn ps_all_args() -> Seq<Seq<char>> {
    seq!["ps"@, "-a"@]
}

pub fn ps_all_arguments() -> (args: Vec<String>)
    ensures
        texts(args@) == ps_all_args(),
{
    let mut args: Vec<String> = Vec::new();
    args.push(String::from_str("ps"));
    args.push(String::from_str("-a"));
    assert(texts(args@) =~= ps_all_args());
    args
}

/// The error of a debug `docker ps -a` that could not be run after a start.
pub fn ps_all_spawn_failed(container_id: &str, error: &str) -> (e: DockerError)
    ensures
        e.0@ == "Error running docker ps -a for container "@ + container_id@
            + " due to error: "@ + error@,
{
    let mut m = String::from_str("Error running docker ps -a for container ");
    m.append(container_id);
    m.append(" due to error: ");
    m.append(error);
    DockerError(m)
}

} // verus!
