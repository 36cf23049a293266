use filejack::access_control::RESTRICTED_MAX_FILE_SIZE;
use filejack::{AccessPolicy, FileJackError};
use std::io::Write;
use std::path::{Path, PathBuf};
use tempfile::{Builder, TempDir};

fn make_file(dir: &Path, name: &str, content: &str) -> PathBuf {
    let mut f = Builder::new().prefix(name).rand_bytes(0).keep(true).tempfile_in(dir).unwrap();
    f.write_all(content.as_bytes()).unwrap();
    f.path().to_path_buf()
}

fn make_dir(dir: &Path, name: &str) -> PathBuf {
    Builder::new().prefix(name).rand_bytes(0).keep(true).tempdir_in(dir).unwrap().path().to_path_buf()
}

fn text(p: &std::path::Path) -> String {
    p.to_str().unwrap().to_string()
}

#[test]
fn test_default_policy() {
    let policy = AccessPolicy::default();
    assert!(!policy.allow_symlinks);
    assert!(!policy.allow_hidden_files);
    assert!(!policy.read_only);
}

#[test]
fn test_permissive_policy() {
    let policy = AccessPolicy::permissive();
    assert!(policy.allow_symlinks);
    assert!(policy.allow_hidden_files);
    assert!(!policy.read_only);
}

#[test]
fn test_restricted_policy() {
    let temp_dir = TempDir::new().unwrap();
    let policy = AccessPolicy::restricted(text(temp_dir.path()));

    assert_eq!(policy.allowed_paths.len(), 1);
    assert!(!policy.allow_symlinks);
    assert!(!policy.allow_hidden_files);
    assert_eq!(policy.max_file_size, 10 * 1024 * 1024);
    assert_eq!(RESTRICTED_MAX_FILE_SIZE, 10 * 1024 * 1024);
}

#[test]
fn test_read_only_policy() {
    let temp_dir = TempDir::new().unwrap();
    let policy = AccessPolicy::read_only(text(temp_dir.path()));

    assert!(policy.read_only);
}

#[test]
fn test_validate_read_allowed() {
    let temp_dir = TempDir::new().unwrap();
    let test_file = make_file(temp_dir.path(), "test.txt", "test");

    let policy = AccessPolicy::restricted(text(temp_dir.path()));
    assert!(policy.validate_read(&text(&test_file)).is_ok());
}

#[test]
fn test_validate_read_denied_path() {
    let temp_dir = TempDir::new().unwrap();
    let allowed_dir = make_dir(temp_dir.path(), "allowed");

    let denied_dir = make_dir(temp_dir.path(), "denied");
    let denied_file = make_file(&denied_dir, "secret.txt", "secret");

    let mut policy = AccessPolicy::restricted(text(temp_dir.path()));
    policy.denied_paths = vec![text(&denied_dir)];

    assert!(policy.validate_read(&text(&denied_file)).is_err());
}

#[test]
fn test_validate_write_read_only() {
    let temp_dir = TempDir::new().unwrap();
    let test_file = temp_dir.path().join("test.txt");

    let policy = AccessPolicy::read_only(text(temp_dir.path()));
    assert!(policy.validate_write(&text(&test_file)).is_err());
}

#[test]
fn test_allowed_extensions() {
    let temp_dir = TempDir::new().unwrap();
    let txt_file = make_file(temp_dir.path(), "test.txt", "test");
    let exe_file = make_file(temp_dir.path(), "test.exe", "test");

    let mut policy = AccessPolicy::restricted(text(temp_dir.path()));
    policy.allowed_extensions = vec!["txt".to_string(), "md".to_string()];

    assert!(policy.validate_read(&text(&txt_file)).is_ok());
    assert!(policy.validate_read(&text(&exe_file)).is_err());
}

#[test]
fn test_denied_extensions() {
    let temp_dir = TempDir::new().unwrap();
    let txt_file = make_file(temp_dir.path(), "test.txt", "test");
    let exe_file = make_file(temp_dir.path(), "test.exe", "test");

    let mut policy = AccessPolicy::restricted(text(temp_dir.path()));
    policy.denied_extensions = vec!["exe".to_string(), "sh".to_string()];

    assert!(policy.validate_read(&text(&txt_file)).is_ok());
    assert!(policy.validate_read(&text(&exe_file)).is_err());
}

#[test]
fn test_hidden_files() {
    let temp_dir = TempDir::new().unwrap();
    let visible_file = make_file(temp_dir.path(), "visible.txt", "test");
    let hidden_file = make_file(temp_dir.path(), ".hidden.txt", "test");

    let policy = AccessPolicy::restricted(text(temp_dir.path()));

    assert!(policy.validate_read(&text(&visible_file)).is_ok());
    assert!(policy.validate_read(&text(&hidden_file)).is_err());
}

#[test]
fn test_file_size_validation() {
    let mut policy = AccessPolicy::default();
    policy.max_file_size = 1024; // 1KB

    assert!(policy.validate_file_size(500).is_ok());
    assert!(policy.validate_file_size(1024).is_ok());
    assert!(policy.validate_file_size(2048).is_err());
}

#[test]
fn test_path_outside_allowed() {
    let temp_dir = TempDir::new().unwrap();
    let allowed_dir = make_dir(temp_dir.path(), "allowed");

    let outside_dir = make_dir(temp_dir.path(), "outside");
    let outside_file = make_file(&outside_dir, "test.txt", "test");

    let policy = AccessPolicy::restricted(text(&allowed_dir));
    assert!(policy.validate_read(&text(&outside_file)).is_err());
}

#[test]
fn validate_read_missing_file_is_not_found() {
    let temp_dir = TempDir::new().unwrap();
    let missing = temp_dir.path().join("missing.txt");
    let policy = AccessPolicy::restricted(text(temp_dir.path()));
    match policy.validate_read(&text(&missing)) {
        Err(FileJackError::FileNotFound(p)) => assert_eq!(p, text(&missing)),
        other => panic!("expected FileNotFound, got {:?}", other),
    }
}

#[test]
fn validate_read_returns_resolved_path() {
    let temp_dir = TempDir::new().unwrap();
    let sub = make_dir(temp_dir.path(), "sub");
    let file = make_file(temp_dir.path(), "a.txt", "x");
    let policy = AccessPolicy::restricted(text(temp_dir.path()));
    let dotted = format!("{}/sub/../a.txt", text(temp_dir.path()));
    let resolved = policy.validate_read(&dotted).unwrap();
    assert_eq!(resolved, text(&file.canonicalize().unwrap()));
}

#[test]
fn validate_read_traversal_outside_root_is_denied() {
    let temp_dir = TempDir::new().unwrap();
    let allowed_dir = make_dir(temp_dir.path(), "allowed");
    let outside = make_file(temp_dir.path(), "outside.txt", "secret");
    let policy = AccessPolicy::restricted(text(&allowed_dir));
    let attack = format!("{}/../outside.txt", text(&allowed_dir));
    assert!(matches!(policy.validate_read(&attack), Err(FileJackError::PermissionDenied(_))));
}

#[test]
fn validate_read_twice_gives_the_same_outcome() {
    let temp_dir = TempDir::new().unwrap();
    let file = make_file(temp_dir.path(), "a.txt", "x");
    let hidden = make_file(temp_dir.path(), ".env", "x");
    let policy = AccessPolicy::restricted(text(temp_dir.path()));
    let first = policy.validate_read(&text(&file)).unwrap();
    let second = policy.validate_read(&text(&file)).unwrap();
    assert_eq!(first, second);
    assert!(policy.validate_read(&text(&hidden)).is_err());
    assert!(policy.validate_read(&text(&hidden)).is_err());
}

#[test]
fn validate_write_returns_path_unchanged() {
    let temp_dir = TempDir::new().unwrap();
    let target = format!("{}/new/deeper/out.txt", text(temp_dir.path()));
    let policy = AccessPolicy::restricted(text(temp_dir.path()));
    assert_eq!(policy.validate_write(&target).unwrap(), target);
}

#[test]
fn validate_write_checks_target_extension_and_name() {
    let temp_dir = TempDir::new().unwrap();
    let mut policy = AccessPolicy::restricted(text(temp_dir.path()));
    policy.denied_extensions = vec!["EXE".to_string()];
    let exe = format!("{}/missing/tool.exe", text(temp_dir.path()));
    let hidden = format!("{}/.secret", text(temp_dir.path()));
    assert!(matches!(policy.validate_write(&exe), Err(FileJackError::PermissionDenied(_))));
    assert!(matches!(policy.validate_write(&hidden), Err(FileJackError::PermissionDenied(_))));
}

#[test]
fn validate_write_outside_root_is_denied() {
    let temp_dir = TempDir::new().unwrap();
    let allowed_dir = make_dir(temp_dir.path(), "allowed");
    let policy = AccessPolicy::restricted(text(&allowed_dir));
    let outside = format!("{}/moved.txt", text(temp_dir.path()));
    assert!(matches!(policy.validate_write(&outside), Err(FileJackError::PermissionDenied(_))));
}

#[test]
fn validate_write_relative_without_existing_ancestor_is_invalid() {
    let policy = AccessPolicy::permissive();
    assert!(matches!(
        policy.validate_write("no_such_dir_for_filejack_tests/x/out.txt"),
        Err(FileJackError::InvalidPath(_))
    ));
}

#[test]
fn read_only_write_denied_whatever_the_path() {
    let policy = AccessPolicy::read_only("/nonexistent-root".to_string());
    for p in ["", "/", "relative.txt", "/etc/passwd", "/a/../b.exe"] {
        assert!(matches!(policy.validate_write(p), Err(FileJackError::PermissionDenied(_))));
    }
}

#[test]
fn denied_root_takes_precedence_on_disk() {
    let temp_dir = TempDir::new().unwrap();
    let secrets = make_dir(temp_dir.path(), "secrets");
    let file = make_file(&secrets, "secret.txt", "secret");
    let mut policy = AccessPolicy::restricted(text(temp_dir.path()));
    policy.denied_paths = vec![text(&secrets)];
    match policy.validate_read(&text(&file)) {
        Err(FileJackError::PermissionDenied(msg)) => assert!(msg.contains("denied")),
        other => panic!("expected PermissionDenied, got {:?}", other),
    }
    let target = format!("{}/new.txt", text(&secrets));
    assert!(matches!(policy.validate_write(&target), Err(FileJackError::PermissionDenied(_))));
}
