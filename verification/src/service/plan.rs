//! The decisions of the service driver: which binaries it may start, whether it can honour
//! a wait strategy, and what the outcomes of its commands mean.

use vstd::prelude::*;
use vstd::string::*;

use crate::docker::args::strs;
use crate::service::types::ServiceUtilError;
use crate::text::{
    chars_of, contains_text, decimal, lossy_utf8, str_contains, trim, trim_bounds, u64_text,
    utf8_lossy,
};
use crate::wait::strategy::WaitStrategy;

verus! {

/// Calls `std::path::Path::exists`. What is on disk decides the answer, so nothing is claimed
/// of it: the callers are verified for either answer.
#[verifier::external_body]
pub(crate) fn path_exists(path: &str) -> (b: bool) {
    std::path::Path::new(path).exists()
}

/// `root/program`, where the driver looks for a binary.
pub open spec fn binary_path(root: Seq<char>, program: Seq<char>) -> Seq<char> {
    root + "/"@ + program
}

pub fn binary_path_text(root: &str, program: &str) -> (s: String)
    ensures
        s@ == binary_path(root@, program@),
{
    let mut s = String::from_str(root);
    s.append("/");
    s.append(program);
    s
}

/// What the check of the binaries gives for the answers `present`, one per binary, telling
/// whether its file exists: success when every one exists, and otherwise the first binary
/// whose file does not.
pub open spec fn binary_check(
    binaries: Seq<Seq<char>>,
    present: Seq<bool>,
    r: Result<(), ServiceUtilError>,
) -> bool {
    &&& (r is Ok <==> forall|i: int| 0 <= i < present.len() ==> #[trigger] present[i])
    &&& r matches Err(e) ==> exists|k: int|
        0 <= k < present.len() && !#[trigger] present[k] && (forall|j: int|
            0 <= j < k ==> #[trigger] present[j]) && e == ServiceUtilError::BinaryNotFound(
            e->BinaryNotFound_0,
        ) && e->BinaryNotFound_0@ == binaries[k]
}

/// Reports the first binary whose file is missing, given for each binary whether its file
/// exists.
pub fn first_missing_binary(binaries: &Vec<&'static str>, present: &Vec<bool>) -> (r: Result<
    (),
    ServiceUtilError,
>)
    requires
        present@.len() == binaries@.len(),
    ensures
        binary_check(strs(binaries@), present@, r),
{
    let mut i: usize = 0;
    while i < present.len()
        invariant
            i <= present@.len(),
            present@.len() == binaries@.len(),
            forall|j: int| 0 <= j < i ==> #[trigger] present@[j],
        decreases present.len() - i,
    {
        if !present[i] {
            let e = ServiceUtilError::BinaryNotFound(String::from_str(binaries[i]));
            proof {
                assert(strs(binaries@)[i as int] == binaries@[i as int]@);
                assert(!present@[i as int]);
            }
            return Err(e);
        }
        i = i + 1;
    }
    Ok(())
}

/// Checks that every binary exists under `root_path`, reporting the first that does not.
///
/// Whether a file exists is read from disk, one answer per binary for the path
/// `root_path/binary`; what comes back is what [`first_missing_binary`] gives for those
/// answers.
pub fn verify_binary_exists(root_path: &str, binaries: &Vec<&'static str>) -> (r: Result<
    (),
    ServiceUtilError,
>)
    ensures
        binaries@.len() == 0 ==> r is Ok,
        exists|present: Seq<bool>|
            present.len() == binaries@.len() && binary_check(strs(binaries@), present, r),
{
    let mut present: Vec<bool> = Vec::new();
    let mut i: usize = 0;
    while i < binaries.len()
        invariant
            i <= binaries@.len(),
            present@.len() == i,
        decreases binaries.len() - i,
    {
        let path = binary_path_text(root_path, binaries[i]);
        present.push(path_exists(path.as_str()));
        i = i + 1;
    }
    let r = first_missing_binary(binaries, &present);
    proof {
        assert(present@.len() == binaries@.len());
    }
    r
}

/// The message for a program that was not declared to the driver.
pub open spec fn undeclared_message(program: Seq<char>) -> Seq<char> {
    "Binary has not been added to the ServiceUtil. Please add the following binary to the set of programs when constructing the ServiceUtil: "@
        + program
}

/// Checks that `program` is one of the binaries the driver was built with.
pub fn check_program_declared(binaries: &Vec<&'static str>, program: &str) -> (r: Result<
    (),
    ServiceUtilError,
>)
    ensures
        match r {
            Ok(()) => strs(binaries@).contains(program@),
            Err(e) => !strs(binaries@).contains(program@) && e == ServiceUtilError::BinaryNotFound(
                e->BinaryNotFound_0,
            ) && e->BinaryNotFound_0@ == undeclared_message(program@),
        },
{
    let mut i: usize = 0;
    let target = String::from_str(program);
    while i < binaries.len()
        invariant
            i <= binaries@.len(),
            target@ == program@,
            forall|k: int| 0 <= k < i ==> strs(binaries@)[k] != program@,
        decreases binaries.len() - i,
    {
        let b = String::from_str(binaries[i]);
        if b == target {
            assert(strs(binaries@)[i as int] == program@);
            return Ok(());
        }
        i = i + 1;
    }
    let mut m = String::from_str(
        "Binary has not been added to the ServiceUtil. Please add the following binary to the set of programs when constructing the ServiceUtil: ",
    );
    m.append(program);
    Err(ServiceUtilError::BinaryNotFound(m))
}

/// The message for a declared program whose binary is gone.
pub open spec fn missing_binary_message(program: Seq<char>, path: Seq<char>) -> Seq<char> {
    "Program "@ + program + " not found in path: "@ + path
}

/// Checks that `program` may be started: that it was declared and its binary still exists.
/// Returns the path of the binary.
pub fn prepare_start(root_path: &str, binaries: &Vec<&'static str>, program: &str) -> (r: Result<
    String,
    ServiceUtilError,
>)
    ensures
        !strs(binaries@).contains(program@) ==> r == Err::<String, ServiceUtilError>(
            ServiceUtilError::BinaryNotFound(r->Err_0->BinaryNotFound_0),
        ) && r->Err_0->BinaryNotFound_0@ == undeclared_message(program@),
        strs(binaries@).contains(program@) ==> match r {
            Ok(path) => path@ == binary_path(root_path@, program@),
            Err(e) => e == ServiceUtilError::BinaryNotFound(e->BinaryNotFound_0)
                && e->BinaryNotFound_0@ == missing_binary_message(
                program@,
                binary_path(root_path@, program@),
            ),
        },
{
    match check_program_declared(binaries, program) {
        Err(e) => return Err(e),
        Ok(()) => {},
    }
    let path = binary_path_text(root_path, program);
    if !path_exists(path.as_str()) {
        let mut m = String::from_str("Program ");
        m.append(program);
        m.append(" not found in path: ");
        m.append(path.as_str());
        return Err(ServiceUtilError::BinaryNotFound(m));
    }
    Ok(path)
}

/// The message for a readiness probe that was given no port to probe.
pub open spec fn missing_port_message(program: Seq<char>) -> Seq<char> {
    "WaitUntilReady needs an address for '"@ + program
        + "', but no port is set. Set .port(..) on the ServiceStartConfig and start the service with start_service_from_config."@
}

/// The message for a console output strategy, which a service driver cannot honour.
pub open spec fn console_unsupported_message() -> Seq<char> {
    "WaitUntilConsoleOutputContains Strategy is not supported"@
}

/// Whether the service driver can honour `strategy` for `program` listening on `port`.
///
/// A service has no container logs to read, so the console output strategy is reported as
/// unsupported; a readiness probe with no port is reported rather than sent to a made-up
/// address, whose silence would read as a timeout far from its cause.
pub fn check_program_wait<P>(program: &str, port: Option<u16>, strategy: &WaitStrategy<P>) -> (r:
    Result<(), ServiceUtilError>)
    ensures
        match *strategy {
            WaitStrategy::WaitUntilConsoleOutputContains(_, _) => r == Err::<(), ServiceUtilError>(
                ServiceUtilError::UnsupportedWaitStrategy(r->Err_0->UnsupportedWaitStrategy_0),
            ) && r->Err_0->UnsupportedWaitStrategy_0@ == console_unsupported_message(),
            WaitStrategy::WaitUntilReady { .. } => if port is None {
                r == Err::<(), ServiceUtilError>(
                    ServiceUtilError::ServiceHealthcheckFailed(
                        r->Err_0->ServiceHealthcheckFailed_0,
                    ),
                ) && r->Err_0->ServiceHealthcheckFailed_0@ == missing_port_message(program@)
            } else {
                r is Ok
            },
            _ => r is Ok,
        },
{
    match strategy {
        WaitStrategy::WaitUntilConsoleOutputContains(_, _) => Err(
            ServiceUtilError::UnsupportedWaitStrategy(
                String::from_str("WaitUntilConsoleOutputContains Strategy is not supported"),
            ),
        ),
        WaitStrategy::WaitUntilReady { .. } => {
            if port.is_none() {
                let mut m = String::from_str("WaitUntilReady needs an address for '");
                m.append(program);
                m.append(
                    "', but no port is set. Set .port(..) on the ServiceStartConfig and start the service with start_service_from_config.",
                );
                Err(ServiceUtilError::ServiceHealthcheckFailed(m))
            } else {
                Ok(())
            }
        },
        _ => Ok(()),
    }
}

/// The error of a fixed wait that could not be waited out.
pub fn duration_wait_failed(secs: u64, error: &str) -> (e: ServiceUtilError)
    ensures
        e == ServiceUtilError::ServiceHealthcheckFailed(e->ServiceHealthcheckFailed_0),
        e->ServiceHealthcheckFailed_0@ == "could not wait for "@ + decimal(secs as nat)
            + " seconds: "@ + error@,
{
    let mut m = String::from_str("could not wait for ");
    let n = u64_text(secs);
    m.append(n.as_str());
    m.append(" seconds: ");
    m.append(error);
    ServiceUtilError::ServiceHealthcheckFailed(m)
}

/// The error of a service that did not pass its HTTP health check.
pub fn http_check_failed(url: &str, error: &str) -> (e: ServiceUtilError)
    ensures
        e == ServiceUtilError::ServiceHealthcheckFailed(e->ServiceHealthcheckFailed_0),
        e->ServiceHealthcheckFailed_0@ == "service did not pass its HTTP health check on "@ + url@
            + ": "@ + error@,
{
    let mut m = String::from_str("service did not pass its HTTP health check on ");
    m.append(url);
    m.append(": ");
    m.append(error);
    ServiceUtilError::ServiceHealthcheckFailed(m)
}

/// The error of a service that did not pass its gRPC health check.
pub fn grpc_check_failed(url: &str, error: &str) -> (e: ServiceUtilError)
    ensures
        e == ServiceUtilError::ServiceHealthcheckFailed(e->ServiceHealthcheckFailed_0),
        e->ServiceHealthcheckFailed_0@ == "service did not pass its gRPC health check on "@ + url@
            + ": "@ + error@,
{
    let mut m = String::from_str("service did not pass its gRPC health check on ");
    m.append(url);
    m.append(": ");
    m.append(error);
    ServiceUtilError::ServiceHealthcheckFailed(m)
}

/// The error of a readiness probe that panicked.
pub fn probe_panicked(program: &str) -> (e: ServiceUtilError)
    ensures
        e == ServiceUtilError::ServiceHealthcheckFailed(e->ServiceHealthcheckFailed_0),
        e->ServiceHealthcheckFailed_0@ == "the readiness probe for '"@ + program@
            + "' panicked"@,
{
    let mut m = String::from_str("the readiness probe for '");
    m.append(program);
    m.append("' panicked");
    ServiceUtilError::ServiceHealthcheckFailed(m)
}

/// The error of a service whose readiness probe gave up.
pub fn not_ready(program: &str, error: &str) -> (e: ServiceUtilError)
    ensures
        e == ServiceUtilError::ServiceHealthcheckFailed(e->ServiceHealthcheckFailed_0),
        e->ServiceHealthcheckFailed_0@ == "service '"@ + program@ + "' did not become ready: "@
            + error@,
{
    let mut m = String::from_str("service '");
    m.append(program);
    m.append("' did not become ready: ");
    m.append(error);
    ServiceUtilError::ServiceHealthcheckFailed(m)
}

/// The error of a service process that could not be spawned.
pub fn spawn_failed(program: &str, error: &str) -> (e: ServiceUtilError)
    ensures
        e == ServiceUtilError::ServiceStartFailed(e->ServiceStartFailed_0),
        e->ServiceStartFailed_0@ == "could not start '"@ + program@ + "': "@ + error@,
{
    let mut m = String::from_str("could not start '");
    m.append(program);
    m.append("': ");
    m.append(error);
    ServiceUtilError::ServiceStartFailed(m)
}

/// The error of a `kill` that could not be run at all.
pub fn kill_spawn_failed(pid: u32, error: &str) -> (e: ServiceUtilError)
    ensures
        e == ServiceUtilError::ServiceStopFailed(e->ServiceStopFailed_0),
        e->ServiceStopFailed_0@ == "could not run kill for "@ + decimal(pid as nat) + ": "@
            + error@,
{
    let mut m = String::from_str("could not run kill for ");
    let n = u64_text(pid as u64);
    m.append(n.as_str());
    m.append(": ");
    m.append(error);
    ServiceUtilError::ServiceStopFailed(m)
}

/// What a `kill` of `pid` that ran means: stopped when it succeeded, and also when the process
/// had already exited, since gone is the state that was asked for.
pub open spec fn kill_stopped(success: bool, stderr: Seq<u8>) -> bool {
    success || contains_text(lossy_utf8(stderr), "No such process"@)
}

/// Interprets the outcome of `kill <pid>`.
pub fn kill_outcome(pid: u32, success: bool, stderr: &[u8]) -> (r: Result<(), ServiceUtilError>)
    ensures
        r is Ok <==> kill_stopped(success, stderr@),
        r matches Err(e) ==> e == ServiceUtilError::ServiceStopFailed(e->ServiceStopFailed_0)
            && e->ServiceStopFailed_0@ == "could not stop the service with PID "@ + decimal(
            pid as nat,
        ) + ": "@ + trim(lossy_utf8(stderr@)),
{
    if success {
        return Ok(());
    }
    let text = utf8_lossy(stderr);
    if str_contains(text.as_str(), "No such process") {
        return Ok(());
    }
    let v = chars_of(text.as_str());
    let (a, b) = trim_bounds(&v);
    let trimmed = text.as_str().substring_char(a, b);
    let mut m = String::from_str("could not stop the service with PID ");
    let n = u64_text(pid as u64);
    m.append(n.as_str());
    m.append(": ");
    m.append(trimmed);
    Err(ServiceUtilError::ServiceStopFailed(m))
}

} // verus!
