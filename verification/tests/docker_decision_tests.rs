//! The decisions of the container driver, fed the outcomes that Docker would give.

use buildutils::docker::outputs::{
    diagnostics_from_inspect, image_tag_from_ps, log_tail_arguments, plan_stop, prune_outcome,
    pull_arguments, pull_outcome, run_outcome, running_from_ps, running_ps_arguments,
    starting_from_logs, stop_outcome, uses_target_tag, StopPlan,
};
use buildutils::docker::start::{
    check_container_wait, died_message, explain_wait_failure, poll_outcome, GetOrStart,
    StartAction, StartEvent,
};
use buildutils::docker::{
    container_port_from_id, merge_log_tail, parse_inspect_line, ContainerConfig, DockerError,
};
use buildutils::wait::{Probe, WaitStrategy};

const OOM_LINE: &str =
    "exited\tfalse\t0\ttrue\t137\t2026-07-29T03:53:36.896197823Z\t2026-07-29T03:53:37.001577407Z";

#[test]
fn ps_output_with_a_name_means_running() {
    assert_eq!(running_from_ps("nginx-80", true, Some(0), b"nginx-80\n", b""), Ok(true));
    assert_eq!(running_from_ps("nginx-80", true, Some(0), b"\n", b""), Ok(false));
    let err = running_from_ps("nginx-80", false, Some(1), b"", b"daemon down\n").unwrap_err();
    assert_eq!(
        err.to_string(),
        "[is_container_running]: docker ps failed for nginx-80 (exit Some(1)): daemon down"
    );
}

#[test]
fn ps_arguments_match_the_name_exactly() {
    assert_eq!(
        running_ps_arguments("my.app-80"),
        vec!["ps", "--filter=status=running", "--filter=name=^my\\.app-80$", "--format={{.Names}}"]
    );
}

#[test]
fn logs_on_stdout_mean_starting() {
    assert!(starting_from_logs(true, b"booting"));
    assert!(!starting_from_logs(true, b""));
    assert!(!starting_from_logs(false, b"booting"));
}

#[test]
fn the_tag_is_read_from_the_image_column() {
    assert_eq!(
        image_tag_from_ps("nginx-80", true, Some(0), b"nginx:1.27.0\n", b"").unwrap(),
        "1.27.0"
    );
    let err = image_tag_from_ps("nginx-80", true, Some(0), b"nginx\n", b"").unwrap_err();
    assert_eq!(
        err.to_string(),
        "[get_container_image_tag]: Image nginx for container ID nginx-80 carries no tag"
    );
    let err = image_tag_from_ps("nginx-80", true, Some(0), b"  \n", b"").unwrap_err();
    assert!(err.to_string().contains("Error no image found"));
}

#[test]
fn a_tag_matches_regardless_of_case() {
    assert_eq!(uses_target_tag("x-1", Ok("Latest".to_string()), "latest"), Ok(true));
    assert_eq!(uses_target_tag("x-1", Ok("1.0".to_string()), "1.1"), Ok(false));
    let err = uses_target_tag("x-1", Err(DockerError::new("gone")), "1.1").unwrap_err();
    assert_eq!(
        err.to_string(),
        "[check_if_container_uses_target_tag]: Error getting container_tag for container ID: x-1 gone"
    );
}

#[test]
fn stopping_depends_on_whether_the_container_runs() {
    match plan_stop("docker-utils-never-started-1234", false, true) {
        StopPlan::Missing(e) => assert_eq!(
            e.to_string(),
            "Container doesn't exists: docker-utils-never-started-1234"
        ),
        _ => panic!("stopping an absent container must fail"),
    }
    match plan_stop("x-1", false, false) {
        StopPlan::Missing(e) => assert_eq!(e.to_string(), "Container doesn't exists: x-1"),
        _ => panic!("an absent container that is to be stopped must be reported"),
    }
    match plan_stop("x-1", true, true) {
        StopPlan::Run(args) => assert_eq!(args, vec!["rm", "-f", "x-1"]),
        _ => panic!("a running container must be removed"),
    }
    match plan_stop("x-1", true, false) {
        StopPlan::Run(args) => assert_eq!(args, vec!["stop", "x-1"]),
        _ => panic!("a running container must be stopped"),
    }
    assert!(stop_outcome("x-1", true, Some(0), b"").is_ok());
    assert_eq!(
        stop_outcome("x-1", false, Some(1), b"no\n").unwrap_err().to_string(),
        "[stop_container]: Failed to stop container x-1 (exit Some(1)): no"
    );
}

#[test]
fn pull_and_prune_report_docker_failures() {
    assert_eq!(pull_arguments("nginx:1", Some("linux/amd64")), vec!["pull", "--platform", "linux/amd64", "nginx:1"]);
    assert_eq!(pull_arguments("nginx:1", None), vec!["pull", "nginx:1"]);
    assert_eq!(
        pull_outcome("nginx-80", false, b"manifest unknown\n").unwrap_err().to_string(),
        "Error starting container nginx-80: manifest unknown\n"
    );
    assert!(prune_outcome(true, Some(0), b"").is_ok());
    assert_eq!(
        prune_outcome(false, None, b" busy ").unwrap_err().to_string(),
        "Error pruning containers: docker system prune failed (exit None): busy"
    );
}

#[test]
fn a_failed_docker_run_is_surfaced_with_its_cause() {
    assert!(run_outcome("nginx-80", true, Some(0), b"").is_ok());
    assert_eq!(
        run_outcome("nginx-80", false, Some(125), b"port is already allocated\n")
            .unwrap_err()
            .to_string(),
        "Error starting container nginx-80: docker run failed (exit Some(125)): port is already allocated"
    );
}

#[test]
fn a_post_mortem_is_read_from_inspect() {
    let d = diagnostics_from_inspect("x-1", true, format!("{OOM_LINE}\n").as_bytes(), b"", None)
        .unwrap();
    assert!(d.looks_oom_killed());
    let err = diagnostics_from_inspect("x-1", false, b"", b"Error: No such object: x-1\n", None)
        .unwrap_err();
    assert_eq!(err.to_string(), "docker inspect failed for 'x-1': Error: No such object: x-1");
    assert_eq!(log_tail_arguments("x-1", 200), vec!["logs", "--tail", "200", "x-1"]);
}

#[test]
fn both_log_streams_are_kept() {
    assert_eq!(merge_log_tail("out\n", "err\n"), "out\nerr");
    assert_eq!(merge_log_tail("", "err\n\n"), "err");
    assert_eq!(merge_log_tail("out", ""), "out");
    assert_eq!(merge_log_tail("\n", "\n"), "");
}

#[test]
fn a_wait_failure_carries_the_post_mortem() {
    let oom = parse_inspect_line(OOM_LINE, None).unwrap();
    let e = explain_wait_failure("timed out", Ok(oom));
    assert!(e.to_string().starts_with("timed out\ncontainer was OOM-killed, raise the memory limit\nstatus=exited"));
    let clean = parse_inspect_line(
        "exited\tfalse\t0\tfalse\t3\t2026-07-28T15:16:41Z\t2026-07-28T15:16:59Z",
        Some("bye".to_string()),
    )
    .unwrap();
    let e = explain_wait_failure("timed out", Ok(clean));
    assert_eq!(
        e.to_string(),
        "timed out\nstatus=exited running=false restarts=0 oom=false exit=3 started=2026-07-28T15:16:41Z finished=2026-07-28T15:16:59Z\nbye"
    );
    let e = explain_wait_failure("timed out", Err(DockerError::new("gone")));
    assert_eq!(
        e.to_string(),
        "timed out (diagnostics unavailable: the container was already removed)"
    );
}

#[test]
fn only_a_definite_stop_counts_as_death() {
    assert_eq!(
        died_message("x-1", Ok(false)),
        Some("container 'x-1' stopped while waiting".to_string())
    );
    assert_eq!(died_message("x-1", Ok(true)), None);
    assert_eq!(died_message("x-1", Err(DockerError::new("no answer"))), None);
    assert_eq!(
        poll_outcome(Some("dead".to_string()), Probe::Ready(())),
        Probe::Fatal("dead".to_string())
    );
    assert_eq!(poll_outcome(None, Probe::Ready(())), Probe::Ready(()));
}

#[test]
fn a_grpc_health_check_is_reported_as_unsupported() {
    let err = check_container_wait(&WaitStrategy::<buildutils::wait::NoProbe>::WaitForGrpcHealthCheck(
        "http://127.0.0.1:6415".to_string(),
        10,
    ))
    .unwrap_err();
    assert!(err.to_string().contains("async driver"));
    assert!(check_container_wait(&WaitStrategy::<buildutils::wait::NoProbe>::NoWait).is_ok());
}

/// Runs the get-or-start sequence against canned answers, returning the actions taken.
fn run_sequence(reuse: bool, answers: Vec<StartEvent>) -> (Vec<&'static str>, Option<Result<(String, u16), DockerError>>) {
    let (mut seq, first) = GetOrStart::begin(reuse);
    let mut taken = vec![name(&first)];
    let mut result = None;
    for event in answers {
        let action = seq.next(event);
        taken.push(name(&action));
        if let StartAction::Finish(r) = action {
            result = Some(r);
            break;
        }
    }
    (taken, result)
}

fn name(a: &StartAction) -> &'static str {
    match a {
        StartAction::CheckRunning => "check-running",
        StartAction::WaitForContainer => "wait",
        StartAction::GetRunningContainer => "get",
        StartAction::StopAndRemove => "remove",
        StartAction::CheckStarting => "check-starting",
        StartAction::Pull => "pull",
        StartAction::Start => "start",
        StartAction::Finish(_) => "finish",
    }
}

#[test]
fn a_running_container_is_reused_after_its_wait() {
    let (taken, result) = run_sequence(
        true,
        vec![
            StartEvent::Running(Ok(true)),
            StartEvent::Waited(Ok(())),
            StartEvent::Got(Ok(("nginx-80".to_string(), 80))),
        ],
    );
    assert_eq!(taken, vec!["check-running", "wait", "get", "finish"]);
    assert_eq!(result.unwrap().unwrap(), ("nginx-80".to_string(), 80));
}

#[test]
fn an_unwanted_running_container_is_replaced() {
    let (taken, _) = run_sequence(
        false,
        vec![
            StartEvent::Running(Ok(true)),
            StartEvent::Removed(Ok(())),
            StartEvent::StartingFound(Ok(false)),
            StartEvent::Pulled(Ok(())),
            StartEvent::Started(Ok(("nginx-80".to_string(), 80))),
        ],
    );
    assert_eq!(taken, vec!["check-running", "remove", "check-starting", "pull", "start", "finish"]);
}

#[test]
fn a_starting_container_that_came_up_is_handed_back() {
    let (taken, _) = run_sequence(
        false,
        vec![
            StartEvent::Running(Ok(false)),
            StartEvent::StartingFound(Ok(true)),
            StartEvent::Waited(Ok(())),
            StartEvent::Running(Ok(true)),
            StartEvent::Got(Ok(("nginx-80".to_string(), 80))),
        ],
    );
    assert_eq!(taken, vec!["check-running", "check-starting", "wait", "check-running", "get", "finish"]);
}

#[test]
fn a_failed_pull_ends_the_sequence_with_its_error() {
    let (taken, result) = run_sequence(
        false,
        vec![
            StartEvent::Running(Ok(false)),
            StartEvent::StartingFound(Ok(false)),
            StartEvent::Pulled(Err(DockerError::new("no such image"))),
        ],
    );
    assert_eq!(taken, vec!["check-running", "check-starting", "pull", "finish"]);
    assert_eq!(result.unwrap().unwrap_err().to_string(), "no such image");
}

#[test]
fn the_port_is_read_back_from_the_container_name() {
    let config = ContainerConfig::new(
        "my-app", "img", "1.0", "0.0.0.0", 8080, None, None, None, None, false, true, false,
        WaitStrategy::NoWait,
    );
    assert_eq!(container_port_from_id(&config.container_name()).unwrap(), 8080);
    assert_eq!(
        buildutils::docker::image_tag(&config.container_image()),
        Some("1.0")
    );
}

#[test]
fn a_configuration_displays_every_setting() {
    let config = ContainerConfig::new(
        "test_container",
        "test_image",
        "latest",
        "0.0.0.0",
        8080,
        Some(&[8081, 8082]),
        Some(&["ENV_VAR=VALUE", "DEBUG=true"]),
        None,
        Some("linux/amd64"),
        true,
        true,
        false,
        WaitStrategy::NoWait,
    );
    assert_eq!(
        config.to_string(),
        "name: test_container, image: test_image:latest, url: 0.0.0.0 connection_port: 8080, \
         additional_ports: Some([8081, 8082]), additional_env_vars: Some([\"ENV_VAR=VALUE\", \
         \"DEBUG=true\"]), platform: Some(\"linux/amd64\"),  reuse_container: true, \
         keep_configuration: false, host_network: true, wait_strategy: NoWait"
    );
    assert!(ContainerConfig::default().to_string().contains("host_network: false"));
}

/// Containers carry `--rm`, so Docker deletes one the moment it exits; what is read back then
/// is an inspect that failed, which is reported rather than turned into made-up diagnostics.
#[test]
fn reports_an_error_once_the_container_is_gone() {
    let err = diagnostics_from_inspect(
        "docker-utils-diag-never-existed",
        false,
        b"",
        b"Error: No such object: docker-utils-diag-never-existed\n",
        None,
    )
    .expect_err("a removed container must not yield diagnostics");

    assert!(
        err.to_string().contains("docker inspect failed"),
        "Unexpected error: {}",
        err.to_string()
    );
}

#[test]
fn the_sequence_expects_the_answer_to_its_action() {
    let (sequence, _) = GetOrStart::begin(true);
    assert!(sequence.expects(&StartEvent::Running(Ok(true))));
    assert!(!sequence.expects(&StartEvent::Pulled(Ok(()))));
}
