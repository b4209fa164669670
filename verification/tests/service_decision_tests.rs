//! The decisions of the service driver and its value types.

use buildutils::service::plan::{
    check_program_declared, check_program_wait, kill_outcome, prepare_start,
    verify_binary_exists,
};
use buildutils::service::{
    Architecture, EnvVar, Platform, ServiceStartConfig, ServiceUtilError, VerifyBinaryError,
};
use buildutils::wait::{NoProbe, WaitStrategy};

#[test]
fn only_declared_programs_may_start() {
    let binaries = vec!["api", "worker"];
    assert!(check_program_declared(&binaries, "worker").is_ok());
    let err = check_program_declared(&binaries, "other").unwrap_err();
    assert!(err.to_string().contains("Binary has not been added"));
    assert!(err.to_string().ends_with(": other"));
}

#[test]
fn a_missing_binary_is_reported() {
    let err = prepare_start("/no/such/dir", &vec!["tool"], "tool").unwrap_err();
    assert_eq!(
        err,
        ServiceUtilError::BinaryNotFound(
            "Program tool not found in path: /no/such/dir/tool".to_string()
        )
    );
    assert!(verify_binary_exists("/no/such/dir", &vec!["tool"]).is_err());
}

#[test]
fn a_present_binary_is_found() {
    // `sh` is present on every system these utilities run on.
    assert_eq!(prepare_start("/bin", &vec!["sh"], "sh").unwrap(), "/bin/sh");
    assert!(verify_binary_exists("/bin", &vec!["sh"]).is_ok());
}

#[test]
fn a_console_output_strategy_is_unsupported_for_services() {
    let err = check_program_wait(
        "svc",
        None,
        &WaitStrategy::<NoProbe>::WaitUntilConsoleOutputContains("ready".to_string(), 10),
    )
    .unwrap_err();
    assert!(err.to_string().contains("Unsupported wait strategy"));
}

#[test]
fn a_readiness_probe_without_a_port_is_reported() {
    let strategy = WaitStrategy::WaitUntilReady {
        probe: NoProbe,
        timeout_secs: 10,
        retry_delay_ms: 10,
    };
    let err = check_program_wait("svc", None, &strategy).unwrap_err();
    assert!(err.to_string().contains("no port is set"));
    assert!(check_program_wait("svc", Some(8080), &strategy).is_ok());
    assert!(check_program_wait("svc", None, &WaitStrategy::<NoProbe>::NoWait).is_ok());
}

#[test]
fn stopping_a_process_that_is_gone_succeeds() {
    assert!(kill_outcome(42, true, b"").is_ok());
    assert!(kill_outcome(42, false, b"kill: (42) - No such process\n").is_ok());
    assert_eq!(
        kill_outcome(42, false, b"kill: (42) - Operation not permitted\n").unwrap_err(),
        ServiceUtilError::ServiceStopFailed(
            "could not stop the service with PID 42: kill: (42) - Operation not permitted"
                .to_string()
        )
    );
}

#[test]
fn value_types_display_as_before() {
    let v = EnvVar::new("KEY".to_string(), "VALUE".to_string());
    assert_eq!(v.values(), ("KEY".to_string(), "VALUE".to_string()));
    assert_eq!(v.to_string(), "EnvVar { Env: KEY Value: VALUE }");
    assert_eq!(Architecture::X8664.as_str(), "x86-64");
    assert_eq!(Architecture::ARM64.to_string(), "aarch64");
    assert_eq!(Platform::MacOsArm64.as_str(), "Mach-O 64-bit executable arm64");
    assert_eq!(
        Platform::LinuxX8664Dynamic.to_string(),
        "ELF 64-bit LSB shared object, x86-64"
    );
    assert_eq!(
        VerifyBinaryError::BinaryNotFound("tool".to_string()).to_string(),
        "[VerifyBinaryError]: Binary not found: tool"
    );
    assert!(VerifyBinaryError::BinaryWrongPlatform("a".to_string(), "b".to_string())
        .to_string()
        .contains("Binary platform should be a, but got b"));
}

#[test]
fn a_start_configuration_displays_its_address() {
    let config = ServiceStartConfig::new(
        "test_program",
        WaitStrategy::NoWait,
        None,
        Some(vec![("key".into(), "value".into())]),
        "127.0.0.1",
        Some(8080),
    );
    assert_eq!(
        config.to_string(),
        "ServiceStartConfig { program: test_program, wait_strategy: NoWait, env_vars: Some([(\"key\", \"value\")]), host: 127.0.0.1, port: Some(8080) }"
    );
    assert_eq!(config.host(), "127.0.0.1");
    assert_eq!(config.port(), Some(8080));
}
