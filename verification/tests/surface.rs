use command_surface::dispatch::{name_of, route, Command};
use command_surface::errors::{render_error, CommandFailure, FailureKind, Operation};
use command_surface::greet::greet;
use command_surface::listing::collect_entries;
use command_surface::system_info::SystemInfo;

#[test]
fn greet_exact_message() {
    assert_eq!(greet("World"), "Hello, World! You've been greeted from Rust!");
}

#[test]
fn greet_empty_name() {
    assert_eq!(greet(""), "Hello, ! You've been greeted from Rust!");
}

#[test]
fn greet_embeds_name_verbatim() {
    let name = "Ada Lovelace";
    assert!(greet(name).contains(name));
}

#[test]
fn read_error_names_path() {
    let path = "/no/such/file.txt";
    let msg = render_error(Operation::ReadFile, path, "No such file or directory (os error 2)");
    assert_eq!(
        msg,
        "Failed to read file '/no/such/file.txt': No such file or directory (os error 2)"
    );
    assert!(msg.contains(path));
}

#[test]
fn write_error_names_path() {
    let path = "/absent/parent/out.txt";
    let msg = render_error(Operation::WriteFile, path, "No such file or directory (os error 2)");
    assert_eq!(
        msg,
        "Failed to write file '/absent/parent/out.txt': No such file or directory (os error 2)"
    );
    assert!(msg.contains(path));
}

#[test]
fn list_error_names_path() {
    let path = "/etc/hostname";
    let msg = render_error(Operation::ListDirectory, path, "Not a directory (os error 20)");
    assert_eq!(
        msg,
        "Failed to read directory '/etc/hostname': Not a directory (os error 20)"
    );
    assert!(msg.contains(path));
}

#[test]
fn failure_keeps_fields_and_renders() {
    let f = CommandFailure::new(
        Operation::ReadFile,
        FailureKind::NotFound,
        "/tmp/x".to_string(),
        "gone".to_string(),
    );
    assert_eq!(f.kind, FailureKind::NotFound);
    assert_eq!(f.op, Operation::ReadFile);
    assert_eq!(f.path, "/tmp/x");
    assert_eq!(f.detail, "gone");
    assert_eq!(f.render(), "Failed to read file '/tmp/x': gone");
}

#[test]
fn listing_keeps_both_names() {
    let out = collect_entries(vec![Some("a.txt".to_string()), Some("b.txt".to_string())]);
    assert_eq!(out, vec!["a.txt".to_string(), "b.txt".to_string()]);
}

#[test]
fn listing_drops_undecodable_names() {
    let out = collect_entries(vec![
        Some("a.txt".to_string()),
        None,
        Some("b.txt".to_string()),
        None,
    ]);
    assert_eq!(out, vec!["a.txt".to_string(), "b.txt".to_string()]);
}

#[test]
fn listing_empty_directory() {
    let out = collect_entries(vec![]);
    assert!(out.is_empty());
}

#[test]
fn snapshot_accepts_known_platform() {
    let info = SystemInfo::new(
        "linux".to_string(),
        "x86_64".to_string(),
        "0.1.0".to_string(),
    )
    .unwrap();
    assert_eq!(info.platform, "linux");
    assert_eq!(info.arch, "x86_64");
    assert_eq!(info.version, "0.1.0");
}

#[test]
fn snapshot_rejects_unknown_platform() {
    let info = SystemInfo::new(
        "plan9".to_string(),
        "x86_64".to_string(),
        "0.1.0".to_string(),
    );
    assert!(info.is_none());
}

#[test]
fn snapshot_rejects_empty_version() {
    let info = SystemInfo::new("linux".to_string(), "x86_64".to_string(), String::new());
    assert!(info.is_none());
}

#[test]
fn snapshot_repeatable() {
    let a = SystemInfo::new(
        "macos".to_string(),
        "aarch64".to_string(),
        "1.2.3".to_string(),
    )
    .unwrap();
    let b = SystemInfo::new(
        "macos".to_string(),
        "aarch64".to_string(),
        "1.2.3".to_string(),
    )
    .unwrap();
    assert_eq!(a.platform, b.platform);
    assert_eq!(a.arch, b.arch);
    assert_eq!(a.version, b.version);
}

#[test]
fn route_round_trip() {
    let commands = [
        Command::Greet,
        Command::ReadFile,
        Command::WriteFile,
        Command::ListDirectory,
        Command::GetSystemInfo,
    ];
    for c in commands {
        assert_eq!(route(name_of(c)), Some(c));
    }
}

#[test]
fn route_names_are_fixed() {
    assert_eq!(name_of(Command::Greet), "greet");
    assert_eq!(name_of(Command::ReadFile), "read_file");
    assert_eq!(name_of(Command::WriteFile), "write_file");
    assert_eq!(name_of(Command::ListDirectory), "list_directory");
    assert_eq!(name_of(Command::GetSystemInfo), "get_system_info");
}

#[test]
fn route_unknown_name_is_refused() {
    assert_eq!(route("remove_file"), None);
    assert_eq!(route(""), None);
    assert_eq!(route("Greet"), None);
}
