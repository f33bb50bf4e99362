use cr8s_quickstart::command::{Action, ExecutionMode, ExitOutcome};
use cr8s_quickstart::config::{resolve, ExternalEnv};
use cr8s_quickstart::lint::LintMode;
use cr8s_quickstart::session::{Directive, Session};
use cr8s_quickstart::shutdown::shutdown;
use cr8s_quickstart::startup::{start, StartOptions, StartupFlags};
use cr8s_quickstart::waiter::wait_for_frontend;

fn default_config() -> cr8s_quickstart::config::Config {
    resolve(false, &ExternalEnv::unset(), &None)
}

fn start_plan(lint: LintMode, fresh: bool) -> cr8s_quickstart::command::Plan {
    let cfg = default_config();
    let o = StartOptions {
        lint,
        no_cache: false,
        force_pull: false,
        force_rebuild: false,
        fresh,
    };
    start(&StartupFlags::new(&o).unwrap(), lint, &cfg)
}

/// Drives a live session, answering each handed-out step with the outcome
/// that `answer` gives for its index; returns the indexes performed.
fn drive(session: &mut Session, answer: impl Fn(usize) -> ExitOutcome) -> Vec<usize> {
    let mut performed = Vec::new();
    loop {
        match session.advance() {
            Directive::Advanced => {}
            Directive::Perform(i) => {
                performed.push(i);
                session.report(answer(i));
            }
            Directive::Finished => break,
        }
    }
    performed
}

#[test]
fn dry_run_start_logs_everything_and_succeeds() {
    let plan = start_plan(LintMode::Off, false);
    let mut session = Session::new(plan, ExecutionMode::DryRun);
    session.run_to_completion();
    assert!(session.is_finished());
    assert!(session.outcome().is_ok());
    let expected = [
        "Skipping docker compose down...",
        "Building cr8s-fe-server image with base:ghcr.io/johnbasrai/cr8s/rust-dev:1.83.0-rev5...",
        "Running(dry-run): docker build --build-arg FE_BASE_IMAGE=ghcr.io/johnbasrai/cr8s/rust-dev:1.83.0-rev5 --build-arg CR8S_VERSION=0.5.1 -f Dockerfile.fe-server -t cr8s-fe-server .",
        "Start all services...",
        "Running(dry-run): docker compose up -d",
        "Waiting for services to be healthy...",
        "Running(dry-run): docker compose up --wait",
        "Loading database schema...",
        "Running(dry-run): docker compose run -q --rm cli load-schema",
        "Creating default admin user...",
        "Running(dry-run): docker compose run -q --rm cli create-user --username admin@example.com --password password123 --roles admin,editor,viewer",
        "Starting backend server...",
        "Running(dry-run): docker compose up -d server",
        "Backend services ready",
        "Frontend trunk compile has started but is not complete!",
    ];
    let log = session.log();
    assert_eq!(log.len(), expected.len());
    for (line, want) in log.iter().zip(expected.iter()) {
        assert_eq!(line.as_str(), *want);
    }
}

#[test]
fn dry_run_never_hands_out_a_step() {
    let plan = start_plan(LintMode::Full, true);
    let n_steps = plan.steps.len();
    let mut session = Session::new(plan, ExecutionMode::DryRun);
    let mut rounds = 0usize;
    loop {
        match session.advance() {
            Directive::Advanced => rounds += 1,
            Directive::Perform(_) => panic!("a dry run must not perform anything"),
            Directive::Finished => break,
        }
    }
    assert_eq!(rounds, n_steps);
    assert!(session.outcome().is_ok());
    assert_eq!(session.log().len(), n_steps);
}

#[test]
fn live_run_performs_each_planned_command_in_order() {
    let plan = start_plan(LintMode::Off, false);
    let mut session = Session::new(plan, ExecutionMode::Live);
    let performed = drive(&mut session, |_| ExitOutcome::Success);
    assert_eq!(performed.len(), 6);
    for pair in performed.windows(2) {
        assert!(pair[0] < pair[1]);
    }
    assert!(session.outcome().is_ok());
}

#[test]
fn first_fatal_failure_aborts_the_rest() {
    let plan = start_plan(LintMode::Off, false);
    let mut session = Session::new(plan, ExecutionMode::Live);
    // The build is the first handed-out step; fail it.
    let performed = drive(&mut session, |_| ExitOutcome::Failed { exit_code: Some(2) });
    assert_eq!(performed.len(), 1);
    match session.outcome() {
        Ok(()) => panic!("a failed build must fail the startup"),
        Err(f) => {
            assert!(f.subject.as_str().starts_with("docker build "));
            assert_eq!(f.exit_code, Some(2));
        }
    }
}

#[test]
fn lint_failure_still_echoes_and_removes_the_script() {
    let plan = start_plan(LintMode::Basic, false);
    let mut session = Session::new(plan, ExecutionMode::Live);
    let mut performed_actions: Vec<String> = Vec::new();
    loop {
        match session.advance() {
            Directive::Advanced => {}
            Directive::Perform(i) => {
                let text = cr8s_quickstart::command::describe_action(&session.step_at(i).action);
                performed_actions.push(text.clone());
                // Fail the containerized lint run, succeed everywhere else.
                let outcome = if text.as_str().starts_with("docker run ") {
                    ExitOutcome::Failed { exit_code: Some(101) }
                } else {
                    ExitOutcome::Success
                };
                session.report(outcome);
            }
            Directive::Finished => break,
        }
    }
    assert_eq!(performed_actions.len(), 4);
    assert_eq!(performed_actions[0].as_str(), "write script run-checks.sh");
    assert!(performed_actions[1].as_str().starts_with("docker run "));
    assert_eq!(performed_actions[2].as_str(), "cat run-checks.sh");
    assert_eq!(performed_actions[3].as_str(), "remove file run-checks.sh");
    match session.outcome() {
        Ok(()) => panic!("a lint failure must abort the startup"),
        Err(f) => assert_eq!(f.exit_code, Some(101)),
    }
}

#[test]
fn script_write_failure_skips_the_cleanup_of_a_script_that_never_existed() {
    let plan = start_plan(LintMode::Basic, false);
    let mut session = Session::new(plan, ExecutionMode::Live);
    let performed = drive(&mut session, |_| ExitOutcome::Failed { exit_code: None });
    // Only the write itself was attempted; neither the container run nor
    // the cleanup of the never-written script.
    assert_eq!(performed.len(), 1);
    match session.outcome() {
        Ok(()) => panic!("a failed script write must abort the startup"),
        Err(f) => {
            assert_eq!(f.subject.as_str(), "write script run-checks.sh");
            assert_eq!(f.exit_code, None);
        }
    }
}

#[test]
fn shutdown_succeeds_even_when_scratch_cleanup_fails() {
    let cfg = default_config();
    let plan = shutdown(&cfg);
    let mut session = Session::new(plan, ExecutionMode::Live);
    let performed = drive(&mut session, |i| {
        if i == 3 {
            // Simulated permission failure on the directory removal.
            ExitOutcome::Failed { exit_code: Some(1) }
        } else {
            ExitOutcome::Success
        }
    });
    assert_eq!(performed, vec![2, 3]);
    assert!(session.is_finished());
    assert!(session.outcome().is_ok());
    let warned = session
        .log()
        .iter()
        .any(|l| l.as_str().starts_with("Warning: best-effort step failed: sudo rm -rf "));
    assert!(warned);
}

#[test]
fn shutdown_fails_when_teardown_fails() {
    let cfg = default_config();
    let plan = shutdown(&cfg);
    let mut session = Session::new(plan, ExecutionMode::Live);
    let performed = drive(&mut session, |_| ExitOutcome::Failed { exit_code: Some(18) });
    // The teardown fails fatally; the guardless cleanup is skipped.
    assert_eq!(performed, vec![2]);
    match session.outcome() {
        Ok(()) => panic!("a failed teardown must fail the shutdown"),
        Err(f) => {
            assert_eq!(f.subject.as_str(), "docker compose down -v");
            assert_eq!(f.exit_code, Some(18));
        }
    }
}

#[test]
fn wait_timeout_failure_is_reported() {
    let plan = wait_for_frontend(1);
    let mut session = Session::new(plan, ExecutionMode::Live);
    let performed = drive(&mut session, |_| ExitOutcome::Failed { exit_code: Some(1) });
    assert_eq!(performed.len(), 1);
    match session.outcome() {
        Ok(()) => panic!("an endpoint that never becomes ready must fail the wait"),
        Err(f) => {
            assert!(f.subject.as_str().contains("--timeout 1000 "));
            assert_eq!(f.exit_code, Some(1));
        }
    }
}

#[test]
fn signal_termination_carries_no_exit_code() {
    let plan = start_plan(LintMode::Off, false);
    let mut session = Session::new(plan, ExecutionMode::Live);
    drive(&mut session, |_| ExitOutcome::Failed { exit_code: None });
    match session.outcome() {
        Ok(()) => panic!("a signaled command must fail the sequence"),
        Err(f) => assert_eq!(f.exit_code, None),
    }
}

#[test]
fn dry_run_full_lint_logs_script_lifecycle_without_performing_it() {
    let plan = start_plan(LintMode::Full, false);
    let mut session = Session::new(plan, ExecutionMode::DryRun);
    session.run_to_completion();
    assert!(session.outcome().is_ok());
    let log = session.log();
    assert!(log
        .iter()
        .any(|l| l.as_str() == "Running(dry-run): write script run-checks.sh"));
    assert!(log
        .iter()
        .any(|l| l.as_str() == "Running(dry-run): remove file run-checks.sh"));
}

#[test]
fn live_log_lines_match_dry_run_lines_except_for_the_marker() {
    let plan_a = start_plan(LintMode::Off, false);
    let plan_b = start_plan(LintMode::Off, false);
    let mut dry = Session::new(plan_a, ExecutionMode::DryRun);
    dry.run_to_completion();
    let mut live = Session::new(plan_b, ExecutionMode::Live);
    drive(&mut live, |_| ExitOutcome::Success);
    let strip = |l: &String| {
        l.replace("Running(dry-run): ", "Running: ")
    };
    let a: Vec<String> = dry.log().iter().map(strip).collect();
    let b: Vec<String> = live.log().iter().map(strip).collect();
    assert_eq!(a, b);
}

#[test]
fn steps_are_inspectable_while_performing() {
    let cfg = default_config();
    let plan = shutdown(&cfg);
    let mut session = Session::new(plan, ExecutionMode::Live);
    loop {
        match session.advance() {
            Directive::Advanced => {}
            Directive::Perform(i) => {
                match &session.step_at(i).action {
                    Action::Run { .. } => {}
                    _ => panic!("shutdown only runs commands"),
                }
                session.report(ExitOutcome::Success);
            }
            Directive::Finished => break,
        }
    }
    assert!(session.outcome().is_ok());
}
