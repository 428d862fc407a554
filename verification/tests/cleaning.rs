use win32process::record::Process;

fn record(path: Option<&str>, cmd: Option<&str>) -> Process {
    Process {
        process_id: 7,
        parent_process_id: 1,
        name: "a.exe".to_string(),
        executable_path: path.map(|s| s.to_string()),
        command_line: cmd.map(|s| s.to_string()),
    }
}

#[test]
fn quoted_prefix_yields_arguments() {
    let mut r = record(Some("C:\\a.exe"), Some("\"C:\\a.exe\" --flag"));
    r.clean();
    assert_eq!(r.command_line.as_deref(), Some("--flag"));
}

#[test]
fn plain_prefix_yields_arguments() {
    let mut r = record(
        Some("C:\\Windows\\notepad.exe"),
        Some("C:\\Windows\\notepad.exe test.txt"),
    );
    r.clean();
    assert_eq!(r.command_line.as_deref(), Some("test.txt"));
}

#[test]
fn unrelated_command_line_is_unchanged() {
    let mut r = record(Some("C:\\a.exe"), Some("D:\\other.exe --x"));
    r.clean();
    assert_eq!(r.command_line.as_deref(), Some("D:\\other.exe --x"));
}

#[test]
fn path_prefix_without_separator_is_unchanged() {
    let mut r = record(Some("C:\\a.exe"), Some("C:\\a.exeX"));
    r.clean();
    assert_eq!(r.command_line.as_deref(), Some("C:\\a.exeX"));
}

#[test]
fn command_line_equal_to_path_becomes_empty() {
    let mut r = record(Some("C:\\a.exe"), Some("C:\\a.exe"));
    r.clean();
    assert_eq!(r.command_line.as_deref(), Some(""));
}

#[test]
fn quoted_path_without_arguments_becomes_empty() {
    let mut r = record(Some("C:\\a.exe"), Some("\"C:\\a.exe\""));
    r.clean();
    assert_eq!(r.command_line.as_deref(), Some(""));
}

#[test]
fn absent_path_leaves_record_unchanged() {
    let mut r = record(None, Some("C:\\a.exe --flag"));
    r.clean();
    assert_eq!(r.command_line.as_deref(), Some("C:\\a.exe --flag"));
    assert_eq!(r.executable_path, None);
}

#[test]
fn absent_command_line_leaves_record_unchanged() {
    let mut r = record(Some("C:\\a.exe"), None);
    r.clean();
    assert_eq!(r.command_line, None);
    assert_eq!(r.executable_path.as_deref(), Some("C:\\a.exe"));
}

#[test]
fn cleaning_counts_characters_not_bytes() {
    let mut r = record(Some("C:\\wörld.exe"), Some("C:\\wörld.exe --ä"));
    r.clean();
    assert_eq!(r.command_line.as_deref(), Some("--ä"));
}

#[test]
fn other_fields_survive_cleaning() {
    let mut r = record(Some("C:\\a.exe"), Some("\"C:\\a.exe\" x"));
    r.clean();
    assert_eq!(r.process_id, 7);
    assert_eq!(r.parent_process_id, 1);
    assert_eq!(r.name, "a.exe");
    assert_eq!(r.executable_path.as_deref(), Some("C:\\a.exe"));
}
