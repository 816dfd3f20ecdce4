//! The pump, the correlator and the submit-and-watch machine, driven on
//! concrete traces.

use bcli::entities::{TaskId, TaskReference};
use bcli::feed::{feed_step, is_terminal, message_matches, pump_feed, FeedAction};
use bcli::json::parse_json;
use bcli::messages::{decode_message, Message};
use bcli::run::{encode_task_request, DrainAction, RunOutcome, RunPhase, RunSession};

fn message(text: &[u8]) -> Message {
    decode_message(&parse_json(text).unwrap()).unwrap()
}

fn terminal_event(id: &str, failed: bool, errors: &[&str]) -> Vec<u8> {
    let errs = errors
        .iter()
        .map(|e| format!("\"{}\"", e))
        .collect::<Vec<_>>()
        .join(", ");
    format!(
        "{{\"state\": \"IDLE\", \"task_status\": {{\"task_id\": \"{}\", \
         \"task_complete\": true, \"task_failed\": {}}}, \"errors\": [{}]}}",
        id, failed, errs
    )
    .into_bytes()
}

fn running_event(id: &str) -> Vec<u8> {
    format!(
        "{{\"state\": \"RUNNING\", \"task_status\": {{\"task_id\": \"{}\", \
         \"task_complete\": false, \"task_failed\": false}}}}",
        id
    )
    .into_bytes()
}

fn start_doc(id: &str) -> Vec<u8> {
    format!(
        "{{\"task_id\": \"{}\", \"name\": \"start\", \"doc\": {{\"time\": 1.0, \
         \"uid\": \"st-1\"}}}}",
        id
    )
    .into_bytes()
}

fn stop_doc(id: &str, exit: &str) -> Vec<u8> {
    format!(
        "{{\"task_id\": \"{}\", \"name\": \"stop\", \"doc\": {{\"exit_status\": \"{}\", \
         \"run_start\": \"r\", \"time\": 2.0, \"uid\": \"sp-1\"}}}}",
        id, exit
    )
    .into_bytes()
}

fn submitted_session(id: &str) -> RunSession {
    let mut session = RunSession::new();
    assert_eq!(session.phase, RunPhase::Created);
    session.task_created(Some(TaskReference {
        task_id: TaskId(id.to_owned()),
    }));
    assert_eq!(session.phase, RunPhase::TaskSubmitted);
    session.subscription_opened();
    assert_eq!(session.phase, RunPhase::Subscribed);
    session.activation_result(true);
    assert_eq!(session.phase, RunPhase::Activated);
    session
}

#[test]
fn malformed_frame_does_not_end_the_stream() {
    let frames = vec![
        running_event("t-1"),
        b"{\"state\": \"RUN".to_vec(),
        terminal_event("t-1", false, &[]),
    ];
    let delivered = pump_feed(&frames);
    assert_eq!(delivered.len(), 2);
    assert!(matches!(delivered[0], Message::Worker(_)));
    assert!(is_terminal(&delivered[1]));
}

#[test]
fn feed_step_skips_only_malformed_frames() {
    assert!(matches!(feed_step(b"not json"), FeedAction::Skip));
    assert!(matches!(
        feed_step(b"{\"unexpected\": 1}"),
        FeedAction::Skip
    ));
    assert!(matches!(
        feed_step(&running_event("t")),
        FeedAction::Deliver(_)
    ));
}

#[test]
fn correlation_is_exact_id_equality() {
    let target = TaskId("t-1".to_owned());
    assert!(message_matches(&message(&running_event("t-1")), &target));
    assert!(!message_matches(&message(&running_event("t-2")), &target));
    assert!(!message_matches(&message(br#"{"state": "IDLE"}"#), &target));
    assert!(message_matches(&message(&start_doc("t-1")), &target));
}

#[test]
fn successful_run_ends_in_success() {
    let mut session = submitted_session("t-1");
    let act = session.on_message(message(&terminal_event("t-1", false, &[])));
    assert_eq!(act, DrainAction::Finish(RunOutcome::Success));
    assert_eq!(session.phase, RunPhase::Terminal(RunOutcome::Success));
    assert!(session.errors.is_empty());
}

#[test]
fn failed_run_reports_errors() {
    let mut session = submitted_session("t-1");
    let act = session.on_message(message(&terminal_event("t-1", true, &["plan raised"])));
    assert_eq!(act, DrainAction::Finish(RunOutcome::Failed));
    assert_eq!(session.phase, RunPhase::Terminal(RunOutcome::Failed));
    assert_eq!(session.errors, vec!["plan raised".to_owned()]);
}

#[test]
fn other_tasks_messages_are_skipped() {
    let mut session = submitted_session("t-1");
    assert_eq!(
        session.on_message(message(&running_event("t-2"))),
        DrainAction::Skip
    );
    assert_eq!(
        session.on_message(message(&terminal_event("t-2", true, &["other"]))),
        DrainAction::Skip
    );
    assert_eq!(session.phase, RunPhase::Activated);
    assert!(session.errors.is_empty());
    let act = session.on_message(message(&terminal_event("t-1", false, &[])));
    assert_eq!(act, DrainAction::Finish(RunOutcome::Success));
}

#[test]
fn start_event_delivered_at_activation_is_surfaced() {
    // The subscription stands before activation, so a start document the
    // worker emits the moment it is activated reaches the machine.
    let mut session = submitted_session("t-1");
    assert!(session.subscribed);
    let act = session.on_message(message(&start_doc("t-1")));
    assert_eq!(act, DrainAction::Surface);
    assert_eq!(session.phase, RunPhase::Activated);
}

#[test]
fn failed_stop_document_turns_success_into_failure() {
    let mut session = submitted_session("t-1");
    assert_eq!(
        session.on_message(message(&stop_doc("t-1", "abort"))),
        DrainAction::Surface
    );
    let act = session.on_message(message(&terminal_event("t-1", false, &[])));
    assert_eq!(act, DrainAction::Finish(RunOutcome::Failed));
}

#[test]
fn clean_stop_document_keeps_success() {
    let mut session = submitted_session("t-1");
    assert_eq!(
        session.on_message(message(&stop_doc("t-1", "success"))),
        DrainAction::Surface
    );
    let act = session.on_message(message(&terminal_event("t-1", false, &[])));
    assert_eq!(act, DrainAction::Finish(RunOutcome::Success));
}

#[test]
fn failed_creation_ends_in_request_error() {
    let mut session = RunSession::new();
    session.task_created(None);
    assert_eq!(session.phase, RunPhase::RequestError);
}

#[test]
fn failed_activation_ends_in_request_error() {
    let mut session = RunSession::new();
    session.task_created(Some(TaskReference {
        task_id: TaskId("t-1".to_owned()),
    }));
    session.subscription_opened();
    session.activation_result(false);
    assert_eq!(session.phase, RunPhase::RequestError);
}

#[test]
fn listen_mode_delivers_every_well_formed_message() {
    let frames = vec![
        running_event("t-1"),
        running_event("t-2"),
        start_doc("t-3"),
    ];
    let delivered = pump_feed(&frames);
    assert_eq!(delivered.len(), 3);
}

#[test]
fn task_request_carries_exactly_three_fields() {
    let params = parse_json(br#"{"steps": 5}"#).unwrap();
    let body = encode_task_request("scan", params, "cm12345-2");
    match body {
        bcli::json::JsonValue::Obj(fields) => {
            assert_eq!(fields.len(), 3);
            assert_eq!(fields[0].0, "name");
            assert_eq!(
                fields[0].1,
                bcli::json::JsonValue::Str("scan".to_owned())
            );
            assert_eq!(fields[1].0, "params");
            assert_eq!(fields[2].0, "instrument_session");
            assert_eq!(
                fields[2].1,
                bcli::json::JsonValue::Str("cm12345-2".to_owned())
            );
        }
        other => panic!("not an object: {:?}", other),
    }
}
