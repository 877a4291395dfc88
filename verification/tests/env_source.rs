//! Settings from the process and from files.

use opsctl::env_source::{
    configured_file_paths, dedup_paths, parse_env_file_value, read_env_file, valid_env_name,
    var_source, var_string, EnvFile,
};
use opsctl::entries::EntryKind;

fn file(path: &str, content: &str) -> EnvFile {
    EnvFile { path: path.to_string(), content: Some(content.to_string()) }
}

#[test]
fn parses_env_file_values_without_shell_expansion() {
    let raw = r#"
# ignored
RESTIC_REPOSITORY="s3:https://example.invalid/bucket"
export RESTIC_PASSWORD='secret value'
AWS_ACCESS_KEY_ID=plain-key
"#;
    assert_eq!(
        parse_env_file_value(raw, "RESTIC_REPOSITORY").as_deref(),
        Some("s3:https://example.invalid/bucket")
    );
    assert_eq!(parse_env_file_value(raw, "RESTIC_PASSWORD").as_deref(), Some("secret value"));
    assert_eq!(parse_env_file_value(raw, "AWS_ACCESS_KEY_ID").as_deref(), Some("plain-key"));
}

#[test]
fn rejects_invalid_env_names() {
    assert!(valid_env_name("RESTIC_PASSWORD"));
    assert!(!valid_env_name("restic_password"));
    assert!(!valid_env_name("1RESTIC_PASSWORD"));
    assert!(!valid_env_name("RESTIC-PASSWORD"));
}

#[test]
fn process_value_comes_before_files() {
    let files = vec![file("/etc/a.env", "NAME=from-file")];
    assert_eq!(var_string("NAME", Some("here"), &files).as_deref(), Some("here"));
    assert_eq!(var_source("NAME", Some("here"), &files).as_deref(), Some("process"));
    assert_eq!(var_string("NAME", None, &files).as_deref(), Some("from-file"));
    assert_eq!(var_source("NAME", None, &files).as_deref(), Some("/etc/a.env"));
}

#[test]
fn first_file_with_a_value_wins() {
    let files = vec![
        file("/etc/a.env", "OTHER=1"),
        file("/etc/b.env", "NAME=two"),
        file("/etc/c.env", "NAME=three"),
    ];
    assert_eq!(var_string("NAME", None, &files).as_deref(), Some("two"));
    assert_eq!(var_source("NAME", None, &files).as_deref(), Some("/etc/b.env"));
}

#[test]
fn invalid_names_are_not_looked_up_in_files() {
    let files = vec![file("/etc/a.env", "name=value")];
    assert_eq!(var_string("name", None, &files), None);
    assert_eq!(parse_env_file_value("name=value", "name"), None);
    assert_eq!(var_source("name", Some("x"), &files), None);
}

#[test]
fn files_without_content_are_passed_over() {
    let files = vec![
        EnvFile { path: "/etc/a.env".to_string(), content: None },
        file("/etc/b.env", "NAME=b"),
    ];
    assert_eq!(var_string("NAME", None, &files).as_deref(), Some("b"));
}

#[test]
fn configured_paths_come_before_the_defaults() {
    let configured = vec!["/opt/x.env".to_string(), "/etc/opsctl/restic.env".to_string()];
    assert_eq!(
        configured_file_paths(&configured),
        vec!["/opt/x.env", "/etc/opsctl/restic.env", "/etc/opsctl/backup.env"]
    );
}

#[test]
fn equal_paths_are_kept_once() {
    let paths = vec!["/a/b".to_string(), "/a//b/".to_string(), "/a/c".to_string()];
    assert_eq!(dedup_paths(&paths), vec!["/a/b", "/a/c"]);
}

#[test]
fn unsafe_env_files_have_no_content() {
    let read = |entry: Option<(EntryKind, u64)>| {
        read_env_file("/etc/opsctl/backup.env", entry, Some("A=1".to_string())).content
    };
    assert_eq!(read(Some((EntryKind::File, 65_536))).as_deref(), Some("A=1"));
    assert_eq!(read(Some((EntryKind::File, 65_537))), None);
    assert_eq!(read(Some((EntryKind::Symlink, 3))), None);
    assert_eq!(read(Some((EntryKind::Dir, 3))), None);
    assert_eq!(read(None), None);
}
