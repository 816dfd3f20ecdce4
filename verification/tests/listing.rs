//! The listing payloads: devices, plans, packages, environment reports,
//! and how they are shown.

use bcli::entities::{
    decode_device, decode_device_list, decode_environment, decode_package, decode_plan,
    decode_plan_list, decode_python_environment, join_strings,
};
use bcli::json::parse_json;

#[test]
fn device_with_protocols_displays_indented() {
    let v = parse_json(
        br#"{
        "name": "motor1",
        "protocols": [
            {"name": "Movable", "types": ["float"]},
            {"name": "Readable", "types": []}
        ]
    }"#,
    )
    .unwrap();
    let d = decode_device(&v).unwrap();
    assert_eq!(d.display_string(), "motor1\n\tMovable[float], Readable");
}

#[test]
fn device_without_protocols_displays_bare() {
    let v = parse_json(br#"{"name": "shutter", "protocols": []}"#).unwrap();
    let d = decode_device(&v).unwrap();
    assert_eq!(d.display_string(), "shutter");
}

#[test]
fn device_list_unwraps_in_order() {
    let v = parse_json(
        br#"{"devices": [
            {"name": "a", "protocols": []},
            {"name": "b", "protocols": [{"name": "Stoppable", "types": []}]}
        ]}"#,
    )
    .unwrap();
    let devices = decode_device_list(&v).unwrap().into_inner();
    assert_eq!(devices.len(), 2);
    assert_eq!(devices[0].display_string(), "a");
    assert_eq!(devices[1].display_string(), "b\n\tStoppable");
}

#[test]
fn device_list_fails_on_one_bad_device() {
    let v = parse_json(br#"{"devices": [{"name": "a", "protocols": []}, {"name": 3}]}"#).unwrap();
    assert!(decode_device_list(&v).is_none());
}

#[test]
fn plans_decode_with_and_without_description() {
    let v = parse_json(
        br#"{"plans": [
            {"name": "scan", "description": "move and count"},
            {"name": "count"}
        ]}"#,
    )
    .unwrap();
    let plans = decode_plan_list(&v).unwrap().plans;
    assert_eq!(plans.len(), 2);
    assert_eq!(plans[0].name, "scan");
    assert_eq!(plans[0].description.as_deref(), Some("move and count"));
    assert_eq!(plans[1].description, None);
    let missing_name = parse_json(br#"{"description": "x"}"#).unwrap();
    assert!(decode_plan(&missing_name).is_none());
}

#[test]
fn package_displays_name_at_version() {
    let v = parse_json(br#"{"name": "numpy", "version": "2.1.0"}"#).unwrap();
    let p = decode_package(&v).unwrap();
    assert_eq!(p.display_string(), "numpy @ 2.1.0");
}

#[test]
fn python_environment_decodes() {
    let v = parse_json(
        br#"{
        "installed_packages": [
            {"name": "numpy", "version": "2.1.0"},
            {"name": "bluesky", "version": "1.13"}
        ],
        "scratch_enabled": true
    }"#,
    )
    .unwrap();
    let e = decode_python_environment(&v).unwrap();
    assert!(e.scratch_enabled);
    assert_eq!(e.installed_packages.len(), 2);
    assert_eq!(e.installed_packages[1].display_string(), "bluesky @ 1.13");
}

#[test]
fn environment_report_decodes() {
    let v = parse_json(
        br#"{"environment_id": "env-7", "initialized": true, "error_message": null}"#,
    )
    .unwrap();
    let e = decode_environment(&v).unwrap();
    assert_eq!(e.environment_id, "env-7");
    assert!(e.initialized);
    assert_eq!(e.error_message, None);
    let broken = parse_json(
        br#"{"environment_id": "env-8", "initialized": false, "error_message": "boom"}"#,
    )
    .unwrap();
    assert_eq!(
        decode_environment(&broken).unwrap().error_message.as_deref(),
        Some("boom")
    );
    let missing = parse_json(br#"{"initialized": true}"#).unwrap();
    assert!(decode_environment(&missing).is_none());
}

#[test]
fn join_separates_only_between_parts() {
    assert_eq!(join_strings(&vec![], ", "), "");
    assert_eq!(join_strings(&vec!["a".to_owned()], ", "), "a");
    assert_eq!(
        join_strings(&vec!["a".to_owned(), "b".to_owned(), "c".to_owned()], ", "),
        "a, b, c"
    );
}
