use win32process::decode::{decode_event, DecodeError};
use win32process::raw::{RawEvent, RawInstance, RawProperty, RawValue};

fn prop(name: &str, value: RawValue) -> RawProperty {
    RawProperty { name: name.to_string(), value }
}

fn text_or_null(v: Option<&str>) -> RawValue {
    match v {
        Some(s) => RawValue::Text(s.to_string()),
        None => RawValue::Null,
    }
}

fn event_with(properties: Vec<RawProperty>) -> RawEvent {
    RawEvent {
        class_name: "__InstanceCreationEvent".to_string(),
        target_instance: Some(RawInstance {
            class_name: "Win32_Process".to_string(),
            properties,
        }),
    }
}

fn well_formed(pid: u64, ppid: u64, name: &str, path: Option<&str>, cmd: Option<&str>) -> RawEvent {
    event_with(vec![
        prop("ProcessId", RawValue::Unsigned(pid)),
        prop("ParentProcessId", RawValue::Unsigned(ppid)),
        prop("Name", RawValue::Text(name.to_string())),
        prop("ExecutablePath", text_or_null(path)),
        prop("CommandLine", text_or_null(cmd)),
    ])
}

#[test]
fn decode_round_trip() {
    let ev = well_formed(
        4321,
        1,
        "notepad.exe",
        Some("C:\\Windows\\notepad.exe"),
        Some("C:\\Windows\\notepad.exe test.txt"),
    );
    let mut p = decode_event(&ev).expect("well-formed payload must decode");
    assert_eq!(p.process_id, 4321);
    assert_eq!(p.parent_process_id, 1);
    assert_eq!(p.name, "notepad.exe");
    assert_eq!(p.executable_path.as_deref(), Some("C:\\Windows\\notepad.exe"));
    assert_eq!(p.command_line.as_deref(), Some("C:\\Windows\\notepad.exe test.txt"));
    p.clean();
    assert_eq!(p.command_line.as_deref(), Some("test.txt"));
}

#[test]
fn missing_instance_fails() {
    let ev = RawEvent {
        class_name: "__InstanceCreationEvent".to_string(),
        target_instance: None,
    };
    assert_eq!(decode_event(&ev), Err(DecodeError::MissingTargetInstance));
}

#[test]
fn wrong_event_class_fails() {
    let mut ev = well_formed(1, 2, "a.exe", None, None);
    ev.class_name = "__InstanceDeletionEvent".to_string();
    assert_eq!(decode_event(&ev), Err(DecodeError::WrongEventClass));
}

#[test]
fn wrong_instance_class_fails() {
    let mut ev = well_formed(1, 2, "a.exe", None, None);
    ev.target_instance.as_mut().unwrap().class_name = "Win32_Service".to_string();
    assert_eq!(decode_event(&ev), Err(DecodeError::WrongInstanceClass));
}

#[test]
fn missing_process_id_fails() {
    let ev = event_with(vec![
        prop("ParentProcessId", RawValue::Unsigned(2)),
        prop("Name", RawValue::Text("a.exe".to_string())),
    ]);
    assert_eq!(decode_event(&ev), Err(DecodeError::BadProcessId));
}

#[test]
fn textual_process_id_fails() {
    let ev = event_with(vec![
        prop("ProcessId", RawValue::Text("7".to_string())),
        prop("ParentProcessId", RawValue::Unsigned(2)),
        prop("Name", RawValue::Text("a.exe".to_string())),
    ]);
    assert_eq!(decode_event(&ev), Err(DecodeError::BadProcessId));
}

#[test]
fn oversized_process_id_fails() {
    let ev = event_with(vec![
        prop("ProcessId", RawValue::Unsigned(1 << 40)),
        prop("ParentProcessId", RawValue::Unsigned(2)),
        prop("Name", RawValue::Text("a.exe".to_string())),
    ]);
    assert_eq!(decode_event(&ev), Err(DecodeError::BadProcessId));
}

#[test]
fn missing_parent_process_id_fails() {
    let ev = event_with(vec![
        prop("ProcessId", RawValue::Unsigned(7)),
        prop("Name", RawValue::Text("a.exe".to_string())),
    ]);
    assert_eq!(decode_event(&ev), Err(DecodeError::BadParentProcessId));
}

#[test]
fn empty_name_fails() {
    let ev = well_formed(1, 2, "", None, None);
    assert_eq!(decode_event(&ev), Err(DecodeError::BadName));
}

#[test]
fn missing_name_fails() {
    let ev = event_with(vec![
        prop("ProcessId", RawValue::Unsigned(7)),
        prop("ParentProcessId", RawValue::Unsigned(2)),
    ]);
    assert_eq!(decode_event(&ev), Err(DecodeError::BadName));
}

#[test]
fn numeric_executable_path_fails() {
    let ev = event_with(vec![
        prop("ProcessId", RawValue::Unsigned(7)),
        prop("ParentProcessId", RawValue::Unsigned(2)),
        prop("Name", RawValue::Text("a.exe".to_string())),
        prop("ExecutablePath", RawValue::Unsigned(3)),
    ]);
    assert_eq!(decode_event(&ev), Err(DecodeError::BadExecutablePath));
}

#[test]
fn boolean_command_line_fails() {
    let ev = event_with(vec![
        prop("ProcessId", RawValue::Unsigned(7)),
        prop("ParentProcessId", RawValue::Unsigned(2)),
        prop("Name", RawValue::Text("a.exe".to_string())),
        prop("CommandLine", RawValue::Boolean(true)),
    ]);
    assert_eq!(decode_event(&ev), Err(DecodeError::BadCommandLine));
}

#[test]
fn null_optional_fields_decode_as_absent() {
    let ev = well_formed(7, 2, "a.exe", None, None);
    let p = decode_event(&ev).expect("nulls in optional fields are fine");
    assert_eq!(p.executable_path, None);
    assert_eq!(p.command_line, None);
}

#[test]
fn missing_optional_fields_decode_as_absent() {
    let ev = event_with(vec![
        prop("ProcessId", RawValue::Unsigned(7)),
        prop("ParentProcessId", RawValue::Unsigned(2)),
        prop("Name", RawValue::Text("a.exe".to_string())),
    ]);
    let p = decode_event(&ev).expect("absent optional fields are fine");
    assert_eq!(p.executable_path, None);
    assert_eq!(p.command_line, None);
}

#[test]
fn first_of_duplicate_properties_wins() {
    let ev = event_with(vec![
        prop("ProcessId", RawValue::Unsigned(7)),
        prop("ProcessId", RawValue::Unsigned(8)),
        prop("ParentProcessId", RawValue::Unsigned(2)),
        prop("Name", RawValue::Text("a.exe".to_string())),
    ]);
    let p = decode_event(&ev).expect("the first property of a name is read");
    assert_eq!(p.process_id, 7);
}
