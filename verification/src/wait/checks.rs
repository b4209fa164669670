//! The pure parts of the built-in checks: the curl arguments of the HTTP check and the
//! search of the console check.

use vstd::prelude::*;
use vstd::string::*;

use crate::docker::args::texts;
use crate::text::{chars_contain, chars_of, contains_text, decimal, lossy_utf8, u64_text, utf8_lossy};
use crate::wait::strategy::WaitStrategyError;

verus! {

/// The curl arguments of the HTTP health check of `url`.
pub open spec fn curl_args(url: Seq<char>) -> Seq<Seq<char>> {
    seq!["--fail"@, "--silent"@, "--show-error"@, "--output"@, "/dev/null"@, url]
}

/// Builds the curl arguments used for the health check.
///
/// `--fail` is what makes the status code count: with it curl exits with an error for any
/// status of 400 or above, so a 503 from a service that is up but not yet ready does not
/// read as readiness. `--show-error` keeps the reason on stderr despite `--silent`, and the
/// body is discarded because only the status matters.
pub fn build_curl_args(health_url: &str) -> (args: Vec<String>)
    ensures
        texts(args@) == curl_args(health_url@),
{
    let mut args: Vec<String> = Vec::new();
    args.push(String::from_str("--fail"));
    args.push(String::from_str("--silent"));
    args.push(String::from_str("--show-error"));
    args.push(String::from_str("--output"));
    args.push(String::from_str("/dev/null"));
    args.push(String::from_str(health_url));
    assert(texts(args@) =~= curl_args(health_url@));
    args
}

/// Whether either captured stream, decoded as `String::from_utf8_lossy` decodes it, contains
/// `expected`.
pub open spec fn streams_hold(stdout: Seq<u8>, stderr: Seq<u8>, expected: Seq<char>) -> bool {
    contains_text(lossy_utf8(stdout), expected) || contains_text(lossy_utf8(stderr), expected)
}

/// Returns whether either captured stream contains the expected output.
///
/// `docker logs` keeps stdout and stderr apart, and many services report readiness on
/// stderr, so both are searched. Output that is not valid UTF-8 is decoded lossily rather
/// than rejected.
pub fn streams_contain(stdout: &[u8], stderr: &[u8], expected_output: &str) -> (b: bool)
    ensures
        b == streams_hold(stdout@, stderr@, expected_output@),
{
    let needle = chars_of(expected_output);
    let out = utf8_lossy(stdout);
    let out_chars = chars_of(out.as_str());
    if chars_contain(&out_chars, &needle) {
        return true;
    }
    let err = utf8_lossy(stderr);
    let err_chars = chars_of(err.as_str());
    chars_contain(&err_chars, &needle)
}


/// The message of an HTTP health check wait that ran out of time.
pub open spec fn http_timeout_message(timeout_secs: u64) -> Seq<char> {
    "[wait_until_http_health_check]: !!Timeout!! Waited "@ + decimal(timeout_secs as nat)
        + " seconds for service health check"@
}

/// Whether an HTTP health check wait has run out of time after `elapsed_secs` whole seconds,
/// and if so its error. The whole seconds are compared, so the wait goes on until a full
/// second past the timeout.
pub fn http_wait_deadline(elapsed_secs: u64, timeout_secs: u64) -> (r: Option<WaitStrategyError>)
    ensures
        (elapsed_secs > timeout_secs) <==> r is Some,
        r matches Some(e) ==> e.0@ == http_timeout_message(timeout_secs),
{
    if elapsed_secs > timeout_secs {
        let mut m = String::from_str("[wait_until_http_health_check]: !!Timeout!! Waited ");
        let n = u64_text(timeout_secs);
        m.append(n.as_str());
        m.append(" seconds for service health check");
        Some(WaitStrategyError(m))
    } else {
        None
    }
}

/// The message of a console output wait that ran out of time.
pub open spec fn console_timeout_message(timeout_secs: u64, expected: Seq<char>) -> Seq<char> {
    "[start_container]: !!Timeout!! Waited "@ + decimal(timeout_secs as nat)
        + " seconds for console output to contain "@ + expected
}

/// Whether a console output wait has run out of time after `elapsed_secs` seconds and
/// `elapsed_nanos` nanoseconds, that is once more than `timeout_secs` seconds have passed,
/// and if so its error.
pub fn console_wait_deadline(
    elapsed_secs: u64,
    elapsed_nanos: u32,
    timeout_secs: u64,
    expected_output: &str,
) -> (r: Option<WaitStrategyError>)
    requires
        elapsed_nanos < 1_000_000_000,
    ensures
        (elapsed_secs > timeout_secs || (elapsed_secs == timeout_secs && elapsed_nanos > 0))
            <==> r is Some,
        r matches Some(e) ==> e.0@ == console_timeout_message(timeout_secs, expected_output@),
{
    if elapsed_secs > timeout_secs || (elapsed_secs == timeout_secs && elapsed_nanos > 0) {
        let mut m = String::from_str("[start_container]: !!Timeout!! Waited ");
        let n = u64_text(timeout_secs);
        m.append(n.as_str());
        m.append(" seconds for console output to contain ");
        m.append(expected_output);
        Some(WaitStrategyError(m))
    } else {
        None
    }
}

/// The arguments of the `docker logs` that reads a container's console output.
pub open spec fn logs_args(id: Seq<char>) -> Seq<Seq<char>> {
    seq!["logs"@, id]
}

pub fn logs_arguments(container_id: &str) -> (args: Vec<String>)
    ensures
        texts(args@) == logs_args(container_id@),
{
    let mut args: Vec<String> = Vec::new();
    args.push(String::from_str("logs"));
    args.push(String::from_str(container_id));
    assert(texts(args@) =~= logs_args(container_id@));
    args
}

/// Whether the outcome of `docker logs` shows the expected output: the command succeeded
/// and either of its streams contains it.
pub fn console_ready(success: bool, stdout: &[u8], stderr: &[u8], expected_output: &str) -> (b:
    bool)
    ensures
        b == (success && streams_hold(stdout@, stderr@, expected_output@)),
{
    success && streams_contain(stdout, stderr, expected_output)
}

/// The error of a `docker logs` that could not be run while waiting on console output.
pub fn logs_spawn_failed(container_id: &str, error: &str) -> (e: WaitStrategyError)
    ensures
        e.0@ == "[start_container]: Failed to run docker logs for container: "@ + container_id@
            + " Error: "@ + error@,
{
    let mut m = String::from_str("[start_container]: Failed to run docker logs for container: ");
    m.append(container_id);
    m.append(" Error: ");
    m.append(error);
    WaitStrategyError(m)
}

} // verus!
