//! The untagged envelope: priority order, correlation keys, completion.

use bcli::entities::TaskId;
use bcli::json::{parse_json, JsonNum, JsonValue};
use bcli::messages::{
    decode_message, decode_status_view, decode_task_status, Message, WorkerState,
};

fn msg(text: &[u8]) -> Option<Message> {
    decode_message(&parse_json(text).unwrap())
}

#[test]
fn progress_event_decodes_first() {
    let m = msg(
        br#"{
        "task_id": "t-1",
        "statuses": {
            "motor": {"display_name": "motor", "current": 1.5, "target": 4.0, "done": false}
        }
    }"#,
    )
    .unwrap();
    match &m {
        Message::Progress(pe) => {
            assert_eq!(pe.task_id, TaskId("t-1".to_owned()));
            assert_eq!(pe.statuses.len(), 1);
            let (name, sv) = &pe.statuses[0];
            assert_eq!(name, "motor");
            assert_eq!(sv.display_name, "motor");
            assert_eq!(sv.current, Some(JsonNum::Dec("1.5".to_owned())));
            assert!(!sv.done);
            assert_eq!(sv.precision, None);
        }
        other => panic!("unexpected: {:?}", other),
    }
    assert_eq!(m.task_id(), Some(TaskId("t-1".to_owned())));
}

#[test]
fn worker_event_decodes() {
    let m = msg(
        br#"{
        "state": "RUNNING",
        "task_status": {"task_id": "t-1", "task_complete": false, "task_failed": false},
        "errors": [],
        "warnings": ["slow shutter"]
    }"#,
    )
    .unwrap();
    match &m {
        Message::Worker(we) => {
            assert_eq!(we.state, WorkerState::Running);
            assert!(!we.complete());
            assert_eq!(we.warnings, vec!["slow shutter".to_owned()]);
            assert!(we.errors.is_empty());
        }
        other => panic!("unexpected: {:?}", other),
    }
    assert_eq!(m.task_id(), Some(TaskId("t-1".to_owned())));
}

#[test]
fn worker_event_without_status_has_no_task_id() {
    let m = msg(br#"{"state": "IDLE"}"#).unwrap();
    match &m {
        Message::Worker(we) => {
            assert!(we.task_status.is_none());
            assert!(!we.complete());
            assert!(we.errors.is_empty());
        }
        other => panic!("unexpected: {:?}", other),
    }
    assert_eq!(m.task_id(), None);
}

#[test]
fn terminal_worker_event_reports_complete() {
    let m = msg(
        br#"{
        "state": "IDLE",
        "task_status": {"task_id": "t-1", "task_complete": true, "task_failed": true},
        "errors": ["plan raised"]
    }"#,
    )
    .unwrap();
    match &m {
        Message::Worker(we) => {
            assert!(we.complete());
            assert_eq!(we.errors, vec!["plan raised".to_owned()]);
        }
        other => panic!("unexpected: {:?}", other),
    }
}

#[test]
fn data_message_decodes_with_tag_and_doc() {
    let m = msg(
        br#"{
        "task_id": "t-9",
        "name": "start",
        "doc": {"time": 1.0, "uid": "st-1"}
    }"#,
    )
    .unwrap();
    match &m {
        Message::Data { task_id, event } => {
            assert_eq!(*task_id, TaskId("t-9".to_owned()));
            assert!(matches!(
                event,
                bcli::messages::data_model::EventDocument::Start(_)
            ));
        }
        other => panic!("unexpected: {:?}", other),
    }
    assert_eq!(m.task_id(), Some(TaskId("t-9".to_owned())));
}

#[test]
fn malformed_payloads_do_not_decode() {
    assert!(msg(br#"{"task_id": "t-1"}"#).is_none());
    assert!(msg(br#"{"state": "NAPPING"}"#).is_none());
    assert!(msg(br#"{"task_id": "t-1", "name": "nonsense", "doc": {}}"#).is_none());
    assert!(msg(br#"[1, 2, 3]"#).is_none());
    assert!(msg(br#"42"#).is_none());
}

#[test]
fn progress_shape_wins_over_data_shape() {
    // Carries both a statuses map and a name/doc pair: the fixed priority
    // order decodes it as a progress update.
    let m = msg(
        br#"{
        "task_id": "t-1",
        "statuses": {},
        "name": "start",
        "doc": {"time": 1, "uid": "u"}
    }"#,
    )
    .unwrap();
    assert!(matches!(m, Message::Progress(_)));
}

#[test]
fn task_status_requires_all_fields() {
    let full = parse_json(br#"{"task_id": "t", "task_complete": true, "task_failed": false}"#)
        .unwrap();
    assert!(decode_task_status(&full).is_some());
    let partial = parse_json(br#"{"task_id": "t", "task_complete": true}"#).unwrap();
    assert!(decode_task_status(&partial).is_none());
}

#[test]
fn status_view_defaults_and_rejections() {
    let v = parse_json(br#"{"display_name": "x"}"#).unwrap();
    let sv = decode_status_view(&v).unwrap();
    assert!(!sv.done);
    assert_eq!(sv.unit, None);
    let bad = parse_json(br#"{"display_name": "x", "done": "yes"}"#).unwrap();
    assert!(decode_status_view(&bad).is_none());
    let bad_precision = parse_json(br#"{"display_name": "x", "precision": 2.5}"#).unwrap();
    assert!(decode_status_view(&bad_precision).is_none());
}
