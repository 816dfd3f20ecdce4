//! Wire-level coding: JSON parsing and rendering through the real
//! serializer, and the state-command round trip.

use bcli::entities::{
    decode_new_state, decode_task_reference, decode_worker_state, encode_new_state,
    encode_task_reference, encode_worker_state, parse_worker_state, state_name, NewState, TaskId,
    TaskReference, WorkerState,
};
use bcli::json::{parse_json, render_json, JsonNum, JsonValue};

fn key(k: &str, v: JsonValue) -> (String, JsonValue) {
    (k.to_owned(), v)
}

#[test]
fn parse_simple_object() {
    let v = parse_json(b"{\"a\": 1, \"b\": \"two\", \"c\": [true, null]}").unwrap();
    match v {
        JsonValue::Obj(fields) => {
            assert_eq!(fields.len(), 3);
            assert_eq!(fields[0].0, "a");
            assert_eq!(fields[0].1, JsonValue::Num(JsonNum::UInt(1)));
            assert_eq!(fields[1].1, JsonValue::Str("two".to_owned()));
            assert_eq!(
                fields[2].1,
                JsonValue::Arr(vec![JsonValue::Bool(true), JsonValue::Null])
            );
        }
        other => panic!("not an object: {:?}", other),
    }
}

#[test]
fn parse_rejects_malformed_text() {
    assert!(parse_json(b"{\"a\": ").is_none());
    assert!(parse_json(b"").is_none());
    assert!(parse_json(b"\"unterminated").is_none());
}

#[test]
fn parse_number_forms() {
    let v = parse_json(b"[0, -5, 18446744073709551615, 3.25]").unwrap();
    match v {
        JsonValue::Arr(items) => {
            assert_eq!(items[0], JsonValue::Num(JsonNum::UInt(0)));
            assert_eq!(items[1], JsonValue::Num(JsonNum::Int(-5)));
            assert_eq!(items[2], JsonValue::Num(JsonNum::UInt(u64::MAX)));
            assert_eq!(items[3], JsonValue::Num(JsonNum::Dec("3.25".to_owned())));
        }
        other => panic!("not an array: {:?}", other),
    }
}

#[test]
fn render_then_parse_round_trips() {
    let original = JsonValue::Obj(vec![
        key("n", JsonValue::Num(JsonNum::Int(-3))),
        key("s", JsonValue::Str("text".to_owned())),
        key(
            "a",
            JsonValue::Arr(vec![JsonValue::Null, JsonValue::Bool(false)]),
        ),
    ]);
    let bytes = render_json(&original);
    let back = parse_json(&bytes).unwrap();
    match back {
        JsonValue::Obj(fields) => {
            assert_eq!(fields.len(), 3);
            for (k, v) in fields {
                match k.as_str() {
                    "n" => assert_eq!(v, JsonValue::Num(JsonNum::Int(-3))),
                    "s" => assert_eq!(v, JsonValue::Str("text".to_owned())),
                    "a" => assert_eq!(
                        v,
                        JsonValue::Arr(vec![JsonValue::Null, JsonValue::Bool(false)])
                    ),
                    other => panic!("unexpected key {}", other),
                }
            }
        }
        other => panic!("not an object: {:?}", other),
    }
}

#[test]
fn render_decimal_number_round_trips() {
    let original = JsonValue::Num(JsonNum::Dec("2.5".to_owned()));
    let bytes = render_json(&original);
    assert_eq!(parse_json(&bytes).unwrap(), original);
}

#[test]
fn new_state_round_trip_preserves_fields() {
    let cmd = NewState {
        new_state: WorkerState::Paused,
        reason: None,
        defer: Some(true),
    };
    let encoded = encode_new_state(&cmd);
    let decoded = decode_new_state(&encoded).unwrap();
    assert_eq!(decoded, cmd);
}

#[test]
fn new_state_round_trip_over_the_wire() {
    let cmd = NewState {
        new_state: WorkerState::Aborting,
        reason: Some("operator request".to_owned()),
        defer: None,
    };
    let bytes = render_json(&encode_new_state(&cmd));
    let decoded = decode_new_state(&parse_json(&bytes).unwrap()).unwrap();
    assert_eq!(decoded, cmd);
}

#[test]
fn absent_options_are_omitted_not_null() {
    let cmd = NewState {
        new_state: WorkerState::Running,
        reason: None,
        defer: None,
    };
    match encode_new_state(&cmd) {
        JsonValue::Obj(fields) => {
            assert_eq!(fields.len(), 1);
            assert_eq!(fields[0].0, "new_state");
            assert_eq!(fields[0].1, JsonValue::Str("RUNNING".to_owned()));
        }
        other => panic!("not an object: {:?}", other),
    }
}

#[test]
fn worker_state_names_round_trip() {
    let states = [
        WorkerState::Idle,
        WorkerState::Running,
        WorkerState::Pausing,
        WorkerState::Paused,
        WorkerState::Halting,
        WorkerState::Stopping,
        WorkerState::Aborting,
        WorkerState::Suspending,
        WorkerState::Panicked,
        WorkerState::Unknown,
    ];
    for st in states {
        let name = state_name(st);
        assert_eq!(parse_worker_state(name.as_str()), Some(st));
    }
    assert_eq!(parse_worker_state("idle"), None);
    assert_eq!(parse_worker_state(""), None);
}

#[test]
fn worker_state_decodes_from_wire_value() {
    let v = parse_json(b"\"PAUSED\"").unwrap();
    assert_eq!(decode_worker_state(&v), Some(WorkerState::Paused));
    let rendered = render_json(&encode_worker_state(WorkerState::Halting));
    assert_eq!(rendered, b"\"HALTING\"".to_vec());
    assert_eq!(decode_worker_state(&JsonValue::Null), None);
}

#[test]
fn task_reference_round_trips() {
    let t = TaskReference {
        task_id: TaskId("0c5b3bb9-0c4c-4f3f-9de3-3a01bd9b2b4f".to_owned()),
    };
    let bytes = render_json(&encode_task_reference(&t));
    let back = decode_task_reference(&parse_json(&bytes).unwrap()).unwrap();
    assert_eq!(back, t);
}

#[test]
fn task_reference_requires_task_id() {
    let v = parse_json(b"{\"job_id\": \"x\"}").unwrap();
    assert!(decode_task_reference(&v).is_none());
    assert!(decode_task_reference(&JsonValue::Bool(true)).is_none());
}

#[test]
fn lookup_takes_the_first_of_duplicate_keys() {
    let fields = vec![
        key("k", JsonValue::Str("first".to_owned())),
        key("k", JsonValue::Str("second".to_owned())),
    ];
    assert_eq!(
        bcli::json::obj_lookup(&fields, "k"),
        Some(&JsonValue::Str("first".to_owned()))
    );
    assert_eq!(bcli::json::obj_lookup(&fields, "missing"), None);
}

#[test]
fn integer_bounds_are_enforced() {
    let v = parse_json(br#"{"time": 1, "uid": "u", "scan_id": 4294967295}"#).unwrap();
    match bcli::messages::data_model::decode_document("start", &v) {
        Some(bcli::messages::data_model::EventDocument::Start(st)) => {
            assert_eq!(st.scan_id, Some(u32::MAX));
        }
        other => panic!("unexpected: {:?}", other),
    }
    let too_big = parse_json(br#"{"time": 1, "uid": "u", "scan_id": 4294967296}"#).unwrap();
    assert!(bcli::messages::data_model::decode_document("start", &too_big).is_none());
    let negative = parse_json(br#"{"time": 1, "uid": "u", "scan_id": -1}"#).unwrap();
    assert!(bcli::messages::data_model::decode_document("start", &negative).is_none());
}

#[test]
fn new_state_rejects_unknown_state_name() {
    let v = parse_json(b"{\"new_state\": \"SLEEPING\"}").unwrap();
    assert!(decode_new_state(&v).is_none());
    let v2 = parse_json(b"{\"new_state\": \"PAUSED\", \"defer\": \"yes\"}").unwrap();
    assert!(decode_new_state(&v2).is_none());
}
