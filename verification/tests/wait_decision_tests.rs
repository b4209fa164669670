//! The decisions of the wait loop, driven the way the loop drives them: run the probe,
//! hand its outcome and the state of the clock to the machine, repeat while it says so.

use buildutils::wait::{
    NoProbe, Probe, ProbeContext, ReadinessProbe, ReadyWait, Repeats, WaitStep, WaitStrategy,
};

/// Drives a wait whose clock reports the timeout elapsed from attempt `deadline_at` on.
/// Returns the result, the number of attempts the probe was run, and the debug lines.
fn drive<T>(
    dbg: bool,
    timeout_millis: u32,
    deadline_at: u32,
    mut probe: impl FnMut() -> Probe<T, String>,
) -> (Result<T, String>, u32, Vec<String>) {
    let mut wait = ReadyWait::new(dbg, 0, timeout_millis * 1_000_000);
    let mut attempts = 0u32;
    let mut printed = Vec::new();
    loop {
        attempts += 1;
        let outcome = probe();
        let (step, lines) = wait.step(outcome, attempts >= deadline_at);
        printed.extend(lines);
        match step {
            WaitStep::Ready(v) => return (Ok(v), attempts, printed),
            WaitStep::Failed(e) => return (Err(e.to_string()), attempts, printed),
            WaitStep::Again => {}
        }
    }
}

#[test]
fn returns_the_value_the_probe_built() {
    let (out, attempts, _) = drive(false, 5000, 1000, || Probe::Ready::<_, String>(42));
    assert_eq!(out.unwrap(), 42);
    assert_eq!(attempts, 1);
}

#[test]
fn retries_until_ready() {
    let mut n = 0;
    let (out, _, _) = drive(false, 5000, 1000, || {
        n += 1;
        if n < 4 {
            Probe::Retry("starting".to_string())
        } else {
            Probe::Ready(n)
        }
    });
    assert_eq!(out.unwrap(), 4);
}

#[test]
fn a_fatal_probe_stops_immediately_and_reports_the_cause() {
    let (out, attempts, _) = drive::<()>(false, 30_000, 1000, || {
        Probe::Fatal("container stopped".to_string())
    });
    assert_eq!(attempts, 1, "a fatal probe must not be retried");
    let err = out.unwrap_err();
    assert!(err.contains("container stopped"));
    assert!(err.contains("attempt 1 failed unrecoverably"));
}

#[test]
fn a_fatal_probe_after_retries_stops_at_that_point() {
    let mut n = 0;
    let (out, attempts, _) = drive::<()>(false, 30_000, 1000, || {
        n += 1;
        if n < 3 {
            Probe::Retry("starting".to_string())
        } else {
            Probe::Fatal("container stopped".to_string())
        }
    });
    assert_eq!(attempts, 3);
    let err = out.unwrap_err();
    assert!(err.contains("container stopped"));
    assert!(!err.contains("Timeout"), "got: {err}");
}

#[test]
fn timing_out_reports_the_last_error_not_a_placeholder() {
    let (out, attempts, _) = drive::<()>(false, 20, 3, || Probe::Retry("still starting".to_string()));
    assert_eq!(attempts, 3);
    let err = out.unwrap_err();
    assert_eq!(
        err,
        "[wait_until_ready]: !!Timeout!! Waited 20ms over 3 attempt(s). Last error: still starting"
    );
}

#[test]
fn a_zero_timeout_gives_up_after_one_attempt() {
    let (out, attempts, _) = drive::<()>(false, 0, 1, || Probe::Retry("not yet".to_string()));
    assert_eq!(attempts, 1);
    let err = out.unwrap_err();
    assert!(err.contains("Timeout"));
    assert!(err.contains("Waited 0ns"), "got: {err}");
}

#[test]
fn a_zero_timeout_still_runs_the_probe_once() {
    let mut n = 0;
    let (out, attempts, _) = drive(false, 0, 1, || {
        n += 1;
        Probe::Ready::<_, String>(n)
    });
    assert_eq!(out.unwrap(), 1);
    assert_eq!(attempts, 1);
}

#[test]
fn collapsing_repeated_messages_does_not_change_the_result() {
    let mut n = 0;
    let (out, _, lines) = drive(true, 5000, 1000, || {
        n += 1;
        match n {
            1..=3 => Probe::Retry("same".to_string()),
            4 => Probe::Retry("different".to_string()),
            _ => Probe::Ready(n),
        }
    });
    assert_eq!(out.unwrap(), 5);
    assert_eq!(
        lines,
        vec![
            "[wait_until_ready]: attempt 1: same".to_string(),
            "[wait_until_ready]:   (same for 2 further attempt(s))".to_string(),
            "[wait_until_ready]: attempt 4: different".to_string(),
            "[wait_until_ready]: ready after 5 attempt(s)".to_string(),
        ]
    );
}

#[test]
fn without_debug_nothing_is_printed() {
    let mut n = 0;
    let (out, _, lines) = drive(false, 5000, 1000, || {
        n += 1;
        if n < 3 {
            Probe::Retry("same".to_string())
        } else {
            Probe::Ready(n)
        }
    });
    assert_eq!(out.unwrap(), 3);
    assert!(lines.is_empty());
}

#[test]
fn an_empty_message_is_reported_on_its_first_occurrence() {
    let mut log = Repeats::new(true);
    assert_eq!(log.observe(1, ""), vec!["[wait_until_ready]: attempt 1: ".to_string()]);
    assert!(log.observe(2, "").is_empty());
    assert_eq!(
        log.flush(),
        vec!["[wait_until_ready]:   (same for 1 further attempt(s))".to_string()]
    );
    assert!(log.flush().is_empty());
}

#[test]
fn the_wait_counts_its_attempts() {
    let mut wait = ReadyWait::new(false, 1, 0);
    assert_eq!(wait.attempt(), 0);
    let (step, _) = wait.step(Probe::<(), String>::Retry("x".to_string()), false);
    assert!(matches!(step, WaitStep::Again));
    assert_eq!(wait.attempt(), 1);
    let (step, _) = wait.step(Probe::<(), String>::Retry("x".to_string()), true);
    assert!(matches!(step, WaitStep::Failed(_)));
    assert_eq!(wait.attempt(), 2);
}

#[test]
fn a_probe_context_carries_the_address_and_attempt() {
    let ctx = ProbeContext::new("svc".to_string(), "127.0.0.1".to_string(), 8080, 3);
    assert_eq!(ctx.id(), "svc");
    assert_eq!(ctx.host(), "127.0.0.1");
    assert_eq!(ctx.port(), 8080);
    assert_eq!(ctx.attempt(), 3);
    assert_eq!(ctx.to_string(), "id: svc, host: 127.0.0.1, port: 8080, attempt: 3");
}

#[test]
fn the_placeholder_probe_fails_loudly() {
    assert_eq!(
        NoProbe.probe(),
        Probe::Fatal("NoProbe is a type-level placeholder and must never be used as a probe")
    );
}

#[test]
fn no_wait_is_the_default_strategy() {
    assert_eq!(WaitStrategy::<NoProbe>::default(), WaitStrategy::NoWait);
}

#[test]
fn strategies_display_their_parameters() {
    assert_eq!(WaitStrategy::<NoProbe>::NoWait.to_string(), "NoWait");
    assert_eq!(WaitStrategy::<NoProbe>::WaitForDuration(5).to_string(), "WaitForDuration(5)");
    assert_eq!(
        WaitStrategy::<NoProbe>::WaitForHttpHealthCheck("http://h/health".to_string(), 10)
            .to_string(),
        "WaitForHttpHealthCheck(\"http://h/health\", 10)"
    );
    assert_eq!(
        WaitStrategy::WaitUntilReady {
            probe: NoProbe,
            timeout_secs: 30,
            retry_delay_ms: 100
        }
        .to_string(),
        "WaitUntilReady { timeout_secs: 30, retry_delay_ms: 100 }"
    );
}
