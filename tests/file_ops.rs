use filejack::file_ops::{decide_in_base, decide_parent_in_base};
use filejack::{FileJackError, FileReader, FileWriter};
use std::io::Write;
use std::path::{Path, PathBuf};
use tempfile::{Builder, TempDir};

fn make_file(dir: &Path, name: &str, content: &str) -> PathBuf {
    let mut f = Builder::new().prefix(name).rand_bytes(0).keep(true).tempfile_in(dir).unwrap();
    f.write_all(content.as_bytes()).unwrap();
    f.path().to_path_buf()
}

fn make_dir(dir: &Path, name: &str) -> PathBuf {
    Builder::new().prefix(name).rand_bytes(0).keep(true).tempdir_in(dir).unwrap().path().to_path_buf()
}

fn text(p: &std::path::Path) -> String {
    p.to_str().unwrap().to_string()
}

#[test]
fn test_file_reader_new() {
    let reader = FileReader::new(None);
    assert!(reader.base_path().is_none());

    let temp_dir = TempDir::new().unwrap();
    let reader = FileReader::new(Some(text(temp_dir.path())));
    assert!(reader.base_path().is_some());
}

#[test]
fn test_file_reader_exists() {
    let temp_dir = TempDir::new().unwrap();
    let file_path = make_file(temp_dir.path(), "test.txt", "test");

    let reader = FileReader::new(None);
    assert!(reader.file_exists(&text(&file_path)));
    assert!(!reader.file_exists(&text(&temp_dir.path().join("nonexistent.txt"))));
}

#[test]
fn test_file_writer_new() {
    let writer = FileWriter::new(None, false);
    assert!(writer.base_path().is_none());
    assert!(!writer.create_dirs());

    let temp_dir = TempDir::new().unwrap();
    let writer = FileWriter::new(Some(text(temp_dir.path())), true);
    assert!(writer.base_path().is_some());
    assert!(writer.create_dirs());
}

#[test]
fn reader_validation_within_and_outside_base() {
    let temp_dir = TempDir::new().unwrap();
    let inside = make_dir(temp_dir.path(), "base");
    let file = make_file(&inside, "a.txt", "a");
    let outside = make_file(temp_dir.path(), "b.txt", "b");
    let reader = FileReader::new(Some(text(&inside)));
    assert!(reader.validate_path(&text(&file)).is_ok());
    assert!(matches!(reader.validate_path(&text(&outside)), Err(FileJackError::PermissionDenied(_))));
    assert!(matches!(
        reader.validate_path(&text(&inside.join("missing.txt"))),
        Err(FileJackError::FileNotFound(_))
    ));
}

#[test]
fn writer_validation() {
    let temp_dir = TempDir::new().unwrap();
    let base = text(temp_dir.path());
    let writer = FileWriter::new(Some(base.clone()), false);
    let nested = format!("{}/new/out.txt", base);
    assert_eq!(writer.validate_path(&nested).unwrap(), nested);
    assert!(matches!(writer.validate_path("/"), Err(FileJackError::InvalidPath(_))));
    assert!(matches!(writer.validate_path("/etc/out.txt"), Err(FileJackError::PermissionDenied(_))));
}

#[test]
fn base_decisions() {
    assert_eq!(decide_in_base("/real/b/x.txt".to_string(), "/real/b").unwrap(), "/real/b/x.txt");
    assert!(matches!(
        decide_in_base("/real/c/x.txt".to_string(), "/real/b"),
        Err(FileJackError::PermissionDenied(_))
    ));
    assert_eq!(decide_parent_in_base("/b/new/f.txt", "/real/b", "/real/b").unwrap(), "/b/new/f.txt");
    assert!(matches!(
        decide_parent_in_base("/b/../etc/f.txt", "/etc", "/real/b"),
        Err(FileJackError::PermissionDenied(_))
    ));
}

#[test]
fn writer_without_base_accepts_any_path_with_parent() {
    let writer = FileWriter::new(None, true);
    assert_eq!(writer.validate_path("/anywhere/at/all.txt").unwrap(), "/anywhere/at/all.txt");
    assert_eq!(writer.validate_path("relative.txt").unwrap(), "relative.txt");
    assert!(matches!(writer.validate_path("/"), Err(FileJackError::InvalidPath(_))));
}

#[test]
fn writer_dotdot_into_missing_directory_outside_base_is_denied() {
    let temp_dir = TempDir::new().unwrap();
    let base = make_dir(temp_dir.path(), "ws");
    let writer = FileWriter::new(Some(text(&base)), true);
    let sneaky = format!("{}/../etc_new/f.txt", text(&base));
    assert!(matches!(writer.validate_path(&sneaky), Err(FileJackError::PermissionDenied(_))));
    let fine = format!("{}/new/deeper/f.txt", text(&base));
    assert_eq!(writer.validate_path(&fine).unwrap(), fine);
}

#[test]
fn reader_without_base_only_resolves() {
    let temp_dir = TempDir::new().unwrap();
    let file = make_file(temp_dir.path(), "a.txt", "a");
    let reader = FileReader::new(None);
    assert_eq!(reader.validate_path(&text(&file)).unwrap(), text(&file.canonicalize().unwrap()));
    let missing = format!("{}/missing.txt", text(temp_dir.path()));
    match reader.validate_path(&missing) {
        Err(FileJackError::FileNotFound(p)) => assert_eq!(p, missing),
        other => panic!("expected FileNotFound, got {:?}", other),
    }
}
