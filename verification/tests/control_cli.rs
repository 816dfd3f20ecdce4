//! Worker control — the state commands and the reload poll — and the
//! decisions taken on raw command-line values.

use bcli::cli::{PackageFilter, RunArgs};
use bcli::control::{
    abort_command, pause_command, poll_outcome, reload_poll_start, resume_command, stop_command,
    PollVerdict, ReloadPoll, POLL_INTERVAL_MS,
};
use bcli::entities::{EnvironmentState, SourceInfo, WorkerState};
use bcli::json::JsonValue;

fn env(id: &str, initialized: bool, error: Option<&str>) -> EnvironmentState {
    EnvironmentState {
        environment_id: id.to_owned(),
        initialized,
        error_message: error.map(|e| e.to_owned()),
    }
}

fn stale_env() -> EnvironmentState {
    env("env-old", false, None)
}

#[test]
fn state_commands_carry_the_documented_fields() {
    let p = pause_command(true);
    assert_eq!(p.new_state, WorkerState::Paused);
    assert_eq!(p.defer, Some(true));
    assert_eq!(p.reason, None);

    let r = resume_command();
    assert_eq!(r.new_state, WorkerState::Running);
    assert_eq!(r.defer, None);

    let s = stop_command();
    assert_eq!(s.new_state, WorkerState::Stopping);

    let a = abort_command(Some("beam dump".to_owned()));
    assert_eq!(a.new_state, WorkerState::Aborting);
    assert_eq!(a.reason.as_deref(), Some("beam dump"));
    assert_eq!(a.defer, None);
}

#[test]
fn reload_times_out_when_nothing_reinitializes() {
    // A two-second budget polled every interval: the environment never
    // comes back, and the verdict is the timeout, not an endless wait.
    let poll = reload_poll_start(&stale_env(), 0, Some(2000));
    assert_eq!(poll.deadline, Some(2000));
    let mut observations: Vec<(u64, EnvironmentState)> = Vec::new();
    let mut now: u64 = 0;
    while now <= 2500 {
        observations.push((now, stale_env()));
        now += POLL_INTERVAL_MS;
    }
    match poll_outcome(&poll, &observations) {
        Some(PollVerdict::TimedOut) => {}
        other => panic!("unexpected: {:?}", other),
    }
}

#[test]
fn reload_error_is_fatal_before_the_deadline() {
    let poll = reload_poll_start(&stale_env(), 0, Some(2000));
    let observations = vec![
        (0u64, stale_env()),
        (500u64, env("env-old", false, Some("boom"))),
        (1000u64, env("env-new", true, None)),
    ];
    match poll_outcome(&poll, &observations) {
        Some(PollVerdict::Fatal(m)) => assert_eq!(m, "boom"),
        other => panic!("unexpected: {:?}", other),
    }
}

#[test]
fn reload_succeeds_on_a_fresh_initialized_environment() {
    let poll = reload_poll_start(&stale_env(), 0, Some(10_000));
    let observations = vec![
        (0u64, stale_env()),
        (500u64, env("env-old", true, None)),
        (1000u64, env("env-new", false, None)),
        (1500u64, env("env-new", true, None)),
    ];
    match poll_outcome(&poll, &observations) {
        Some(PollVerdict::Reloaded(e)) => {
            assert_eq!(e.environment_id, "env-new");
            assert!(e.initialized);
        }
        other => panic!("unexpected: {:?}", other),
    }
}

#[test]
fn unbounded_reload_never_times_out() {
    let poll = ReloadPoll {
        old_environment_id: "env-old".to_owned(),
        deadline: None,
    };
    let late = poll.poll_step(1_000_000, stale_env());
    assert_eq!(late, PollVerdict::Wait);
    let done = poll.poll_step(2_000_000, env("env-new", true, None));
    assert!(matches!(done, PollVerdict::Reloaded(_)));
}

#[test]
fn timeout_beats_error_at_the_deadline() {
    // Past the deadline no poll is made, so even an error report is
    // answered with the timeout verdict.
    let poll = reload_poll_start(&stale_env(), 0, Some(1000));
    let v = poll.poll_step(1000, env("env-old", false, Some("boom")));
    assert_eq!(v, PollVerdict::TimedOut);
}

#[test]
fn foreground_resolution_matches_the_flag_table() {
    let base = RunArgs {
        name: "scan".to_owned(),
        instrument_session: "cm12345-2".to_owned(),
        params: None,
        foreground: false,
        background: false,
    };
    assert!(base.foreground());
    let fg = RunArgs {
        foreground: true,
        ..base
    };
    assert!(fg.foreground());
    let bg = RunArgs {
        foreground: false,
        background: true,
        name: "scan".to_owned(),
        instrument_session: "cm12345-2".to_owned(),
        params: None,
    };
    assert!(!bg.foreground());
    let both = RunArgs {
        foreground: true,
        background: true,
        name: "scan".to_owned(),
        instrument_session: "cm12345-2".to_owned(),
        params: None,
    };
    assert!(both.foreground());
}

#[test]
fn parameters_parse_or_fail() {
    let none = RunArgs {
        name: "scan".to_owned(),
        instrument_session: "s".to_owned(),
        params: None,
        foreground: false,
        background: false,
    };
    assert_eq!(none.parameters(), Ok(None));
    let good = RunArgs {
        params: Some("{\"steps\": 3}".to_owned()),
        name: "scan".to_owned(),
        instrument_session: "s".to_owned(),
        foreground: false,
        background: false,
    };
    match good.parameters() {
        Ok(Some(JsonValue::Obj(fields))) => assert_eq!(fields[0].0, "steps"),
        other => panic!("unexpected: {:?}", other),
    }
    let bad = RunArgs {
        params: Some("{steps: 3".to_owned()),
        name: "scan".to_owned(),
        instrument_session: "s".to_owned(),
        foreground: false,
        background: false,
    };
    assert_eq!(bad.parameters(), Err(()));
}

#[test]
fn package_filter_query_omits_absent_fields() {
    let empty = PackageFilter {
        name: None,
        source: None,
    };
    assert!(empty.query_pairs().is_empty());
    let full = PackageFilter {
        name: Some("numpy".to_owned()),
        source: Some(SourceInfo::PyPI),
    };
    assert_eq!(
        full.query_pairs(),
        vec![
            ("name".to_owned(), "numpy".to_owned()),
            ("source".to_owned(), "pypi".to_owned()),
        ]
    );
    let scratch_only = PackageFilter {
        name: None,
        source: Some(SourceInfo::Scratch),
    };
    assert_eq!(
        scratch_only.query_pairs(),
        vec![("source".to_owned(), "scratch".to_owned())]
    );
}
