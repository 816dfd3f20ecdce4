//! The event-document protocol: one decode test per variant, the unknown
//! tag, and the field rules documents rely on.

use bcli::json::{parse_json, JsonNum, JsonValue};
use bcli::messages::data_model::{
    decode_document, decode_stream_range, DataType, EventDocument, ExitStatus, PathSemantics,
    SampleInfo,
};

fn doc(text: &[u8]) -> JsonValue {
    parse_json(text).unwrap()
}

#[test]
fn stop_document_decodes() {
    let d = doc(
        br#"{
        "exit_status": "fail",
        "num_events": {"primary": 12},
        "reason": "beam lost",
        "run_start": "r-1",
        "time": 1700000000.25,
        "uid": "s-1"
    }"#,
    );
    match decode_document("stop", &d) {
        Some(EventDocument::Stop(st)) => {
            assert_eq!(st.exit_status, ExitStatus::Fail);
            assert_eq!(st.num_events, vec![("primary".to_owned(), 12)]);
            assert_eq!(st.reason.as_deref(), Some("beam lost"));
            assert_eq!(st.run_start, "r-1");
            assert_eq!(st.time, JsonNum::Dec("1700000000.25".to_owned()));
            assert_eq!(st.uid, "s-1");
            assert!(st.data_type.is_none());
        }
        other => panic!("unexpected: {:?}", other),
    }
}

#[test]
fn stop_num_events_defaults_to_empty() {
    let d = doc(br#"{"exit_status": "success", "run_start": "r", "time": 1, "uid": "u"}"#);
    match decode_document("stop", &d) {
        Some(EventDocument::Stop(st)) => {
            assert_eq!(st.exit_status, ExitStatus::Success);
            assert!(st.num_events.is_empty());
        }
        other => panic!("unexpected: {:?}", other),
    }
}

#[test]
fn stop_rejects_unknown_exit_status() {
    let d = doc(br#"{"exit_status": "crashed", "run_start": "r", "time": 1, "uid": "u"}"#);
    assert!(decode_document("stop", &d).is_none());
}

#[test]
fn start_document_decodes() {
    let d = doc(
        br#"{
        "data_groups": ["g1", "g2"],
        "data_session": "cm12345-2",
        "sample": {"composition": "SiO2"},
        "scan_id": 42,
        "time": 1700000000.5,
        "uid": "st-1"
    }"#,
    );
    match decode_document("start", &d) {
        Some(EventDocument::Start(st)) => {
            assert_eq!(st.data_groups, vec!["g1".to_owned(), "g2".to_owned()]);
            assert_eq!(st.data_session.as_deref(), Some("cm12345-2"));
            assert_eq!(st.group, None);
            assert_eq!(st.scan_id, Some(42));
            match st.sample {
                Some(SampleInfo::Info(fields)) => {
                    assert_eq!(fields.len(), 1);
                    assert_eq!(fields[0].0, "composition");
                }
                other => panic!("unexpected sample: {:?}", other),
            }
        }
        other => panic!("unexpected: {:?}", other),
    }
}

#[test]
fn start_sample_link_is_a_string() {
    let d = doc(br#"{"sample": "other-run", "time": 1, "uid": "u"}"#);
    match decode_document("start", &d) {
        Some(EventDocument::Start(st)) => {
            assert_eq!(st.sample, Some(SampleInfo::Link("other-run".to_owned())));
        }
        other => panic!("unexpected: {:?}", other),
    }
}

#[test]
fn descriptor_document_decodes() {
    let d = doc(
        br#"{
        "data_keys": {
            "x": {"dtype": "number", "shape": [null, 3], "source": "PV:X", "precision": 2}
        },
        "run_start": "r-1",
        "time": 5,
        "uid": "d-1"
    }"#,
    );
    match decode_document("descriptor", &d) {
        Some(EventDocument::Descriptor(de)) => {
            assert_eq!(de.data_keys.len(), 1);
            let (name, dk) = &de.data_keys[0];
            assert_eq!(name, "x");
            assert_eq!(dk.dtype, DataType::Number);
            assert_eq!(dk.shape, vec![None, Some(3)]);
            assert_eq!(dk.source, "PV:X");
            assert_eq!(dk.precision, Some(2));
            assert!(de.configuration.is_empty());
            assert!(de.name.is_none());
        }
        other => panic!("unexpected: {:?}", other),
    }
}

#[test]
fn descriptor_requires_data_keys() {
    let d = doc(br#"{"run_start": "r", "time": 5, "uid": "d"}"#);
    assert!(decode_document("descriptor", &d).is_none());
}

#[test]
fn event_document_decodes() {
    let d = doc(
        br#"{
        "uid": "e-1",
        "time": 9.5,
        "data": {"x": 1.25},
        "timestamps": {"x": 9.4},
        "seq_num": 7,
        "descriptor": "d-1"
    }"#,
    );
    match decode_document("event", &d) {
        Some(EventDocument::Event(ev)) => {
            assert_eq!(ev.seq_num, 7);
            assert_eq!(ev.descriptor, "d-1");
            match &ev.data {
                JsonValue::Obj(fields) => assert_eq!(fields[0].0, "x"),
                other => panic!("unexpected data: {:?}", other),
            }
        }
        other => panic!("unexpected: {:?}", other),
    }
}

#[test]
fn event_rejects_fractional_seq_num() {
    let d = doc(
        br#"{"uid": "e", "time": 1, "data": {}, "timestamps": {}, "seq_num": 7.5,
             "descriptor": "d"}"#,
    );
    assert!(decode_document("event", &d).is_none());
}

#[test]
fn datum_and_resource_decode() {
    let d = doc(br#"{"datum_id": "da-1", "datum_kwargs": {"frame": 3}, "resource": "re-1"}"#);
    match decode_document("datum", &d) {
        Some(EventDocument::Datum(da)) => {
            assert_eq!(da.datum_id, "da-1");
            assert_eq!(da.resource, "re-1");
        }
        other => panic!("unexpected: {:?}", other),
    }
    let r = doc(
        br#"{
        "resource_kwargs": {},
        "resource_path": "scan/file.h5",
        "root": "/data",
        "spec": "AD_HDF5",
        "uid": "re-1",
        "path_semantics": "posix"
    }"#,
    );
    match decode_document("resource", &r) {
        Some(EventDocument::Resource(re)) => {
            assert_eq!(re.spec_label, "AD_HDF5");
            assert_eq!(re.path_semantics, Some(PathSemantics::Posix));
            assert_eq!(re.run_start, None);
        }
        other => panic!("unexpected: {:?}", other),
    }
}

#[test]
fn event_page_decodes_in_column_form() {
    let d = doc(
        br#"{
        "data": {"x": [1, 2]},
        "time": [10.0, 10.5],
        "timestamps": {"x": [9.9, 10.4]},
        "descriptor": "d-1",
        "seq_num": [1, 2],
        "uid": ["e-1", "e-2"]
    }"#,
    );
    match decode_document("event_page", &d) {
        Some(EventDocument::EventPage(ep)) => {
            assert_eq!(ep.seq_num, vec![1, 2]);
            assert_eq!(ep.uid, vec!["e-1".to_owned(), "e-2".to_owned()]);
            assert_eq!(ep.data.len(), 1);
            assert_eq!(ep.data[0].1.len(), 2);
        }
        other => panic!("unexpected: {:?}", other),
    }
}

#[test]
fn datum_page_decodes() {
    let d = doc(br#"{"datum_id": ["da-1"], "datum_kwargs": {"frame": [3]}, "resource": "re"}"#);
    match decode_document("datum_page", &d) {
        Some(EventDocument::DatumPage(dp)) => {
            assert_eq!(dp.datum_id, vec!["da-1".to_owned()]);
        }
        other => panic!("unexpected: {:?}", other),
    }
}

#[test]
fn stream_documents_decode() {
    let r = doc(
        br#"{
        "data_key": "det",
        "mimetype": "application/x-hdf5",
        "parameters": {"chunk": 16},
        "uid": "sr-1",
        "uri": "file://data/scan.h5"
    }"#,
    );
    match decode_document("stream_resource", &r) {
        Some(EventDocument::StreamResource(sr)) => {
            assert_eq!(sr.uri, "file://data/scan.h5");
        }
        other => panic!("unexpected: {:?}", other),
    }
    let d = doc(
        br#"{
        "descriptor": "d-1",
        "indices": {"start": 0, "stop": 5},
        "seq_nums": {"start": 1, "stop": 6},
        "stream_resource": "sr-1",
        "uid": "sd-1"
    }"#,
    );
    match decode_document("stream_datum", &d) {
        Some(EventDocument::StreamDatum(sd)) => {
            assert_eq!(sd.indices.start, 0);
            assert_eq!(sd.indices.stop, 5);
            assert_eq!(sd.seq_nums.start, 1);
        }
        other => panic!("unexpected: {:?}", other),
    }
}

#[test]
fn unknown_tag_is_a_decode_failure() {
    let d = doc(br#"{"uid": "u", "time": 1}"#);
    assert!(decode_document("bulk_events", &d).is_none());
    assert!(decode_document("", &d).is_none());
}

#[test]
fn stream_range_bounds() {
    let v = doc(br#"{"start": -2147483648, "stop": 2147483647}"#);
    let sr = decode_stream_range(&v).unwrap();
    assert_eq!(sr.start, i32::MIN);
    assert_eq!(sr.stop, i32::MAX);
    let too_big = doc(br#"{"start": 0, "stop": 2147483648}"#);
    assert!(decode_stream_range(&too_big).is_none());
}
