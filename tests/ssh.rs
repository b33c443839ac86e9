use xtask::root::project_root;
use xtask::ssh::{config_entry, entry_present, entry_to_append, line_contains, ssh_paths, ConfigError, MARKER};

#[test]
fn entry_holds_marker_line() {
    let e = config_entry();
    let text = String::from_utf8(e.clone()).unwrap();
    assert!(text.contains("\nHost harborshield-dev\n"));
    assert!(text.starts_with("\n# HarborShield dev container\n"));
    assert!(text.ends_with("    UserKnownHostsFile /dev/null\n"));
    assert_eq!(text.matches(MARKER).count(), 1);
    assert!(entry_present(&e));
}

#[test]
fn marker_found_in_any_line() {
    assert!(entry_present(b"Host other\nHost harborshield-dev\n    Port 2222\n"));
    assert!(entry_present(b"  Host harborshield-dev-extra"));
    assert!(!entry_present(b""));
    assert!(!entry_present(b"Host harborshield\n-dev"));
    assert!(!entry_present(b"Host other\n"));
}

#[test]
fn line_contains_edges() {
    assert!(line_contains(b"abc", b""));
    assert!(!line_contains(b"ab", b"abc"));
    assert!(line_contains(b"x\nabc", b"abc"));
    assert!(!line_contains(b"a\nbc", b"abc"));
}

#[test]
fn setup_twice_appends_once() {
    let mut file: Vec<u8> = b"Host other\n    Port 22\n".to_vec();
    let first = entry_to_append(Some(&file)).expect("entry missing, so it is appended");
    file.extend_from_slice(&first);
    assert!(entry_to_append(Some(&file)).is_none());
    let text = String::from_utf8(file).unwrap();
    assert_eq!(text.lines().filter(|l| l.contains(MARKER)).count(), 1);
}

#[test]
fn setup_without_file_writes_entry() {
    assert_eq!(entry_to_append(None), Some(config_entry()));
}

#[test]
fn paths_under_home() {
    let p = ssh_paths(Some("/home/dev")).ok().unwrap();
    assert_eq!(p.dir, "/home/dev/.ssh");
    assert_eq!(p.file, "/home/dev/.ssh/config");
    assert_eq!(ssh_paths(None).err(), Some(ConfigError::NoHome));
}

#[test]
fn root_is_parent_of_manifest_dir() {
    assert_eq!(project_root("/work/harborshield/xtask"), "/work/harborshield");
    assert_eq!(project_root("/work/harborshield/xtask/"), "/work/harborshield");
    assert_eq!(project_root("/"), "/");
    assert_eq!(project_root(""), "");
}
