use std::collections::HashMap;

use safe_backup::error::SafeBackupError;
use safe_backup::ops::{backup_name_of, confirm_delete, decide_delete, FileKind, SafeBackup, Transfer};

fn tool() -> SafeBackup {
    SafeBackup::new("/srv/data").unwrap()
}

fn carry_out(files: &mut HashMap<String, Vec<u8>>, t: &Transfer) {
    let bytes = files[&t.source].clone();
    files.insert(t.target.clone(), bytes);
}

#[test]
fn backup_name_appends_suffix() {
    assert_eq!(backup_name_of("report.txt"), "report.txt.bak");
}

#[test]
fn backup_of_regular_file() {
    let t = tool().backup_file("report.txt", FileKind::Regular).unwrap();
    assert_eq!(t.source, "report.txt");
    assert_eq!(t.target, "report.txt.bak");
    assert_eq!(t.notice, "Backup created: report.txt.bak");
    assert_eq!(t.record, "Performed backup of 'report.txt'");
    let mut files = HashMap::new();
    files.insert("report.txt".to_string(), b"quarterly numbers\n".to_vec());
    carry_out(&mut files, &t);
    assert_eq!(files["report.txt.bak"], b"quarterly numbers\n".to_vec());
    assert_eq!(files["report.txt"], b"quarterly numbers\n".to_vec());
}

#[test]
fn backup_of_missing_file() {
    match tool().backup_file("report.txt", FileKind::Missing) {
        Err(SafeBackupError::FileNotFound(m)) => assert_eq!(m, "Source file 'report.txt' does not exist"),
        _ => panic!("expected a missing file"),
    }
}

#[test]
fn backup_of_directory() {
    match tool().backup_file("docs", FileKind::Other) {
        Err(SafeBackupError::InvalidPath(m)) => assert_eq!(m, "'docs' is not a regular file"),
        _ => panic!("expected an invalid path"),
    }
}

#[test]
fn backup_validates_before_looking() {
    match tool().backup_file("../x", FileKind::Regular) {
        Err(SafeBackupError::InvalidPath(m)) => assert_eq!(m, "Path traversal sequences are not allowed"),
        _ => panic!("expected an invalid path"),
    }
}

#[test]
fn backup_name_is_validated_too() {
    match tool().backup_file("notes.", FileKind::Regular) {
        Err(SafeBackupError::InvalidPath(m)) => assert_eq!(m, "Path traversal sequences are not allowed"),
        _ => panic!("the backup name notes..bak must be refused"),
    }
}

#[test]
fn backup_then_restore_round_trip() {
    let mut files = HashMap::new();
    files.insert("report.txt".to_string(), b"v1".to_vec());
    let b = tool().backup_file("report.txt", FileKind::Regular).unwrap();
    carry_out(&mut files, &b);
    let r = tool().restore_file("report.txt", FileKind::Regular).unwrap();
    assert_eq!(r.source, "report.txt.bak");
    assert_eq!(r.target, "report.txt");
    assert_eq!(r.notice, "File restored from: report.txt.bak");
    assert_eq!(r.record, "Performed restore to 'report.txt'");
    carry_out(&mut files, &r);
    assert_eq!(files["report.txt"], b"v1".to_vec());
    files.insert("report.txt".to_string(), b"v2, edited".to_vec());
    carry_out(&mut files, &r);
    assert_eq!(files["report.txt"], b"v1".to_vec());
}

#[test]
fn backup_twice_same_as_once() {
    let mut once = HashMap::new();
    once.insert("a.txt".to_string(), b"abc".to_vec());
    once.insert("a.txt.bak".to_string(), b"old".to_vec());
    let mut twice = once.clone();
    let t1 = tool().backup_file("a.txt", FileKind::Regular).unwrap();
    carry_out(&mut once, &t1);
    carry_out(&mut twice, &t1);
    let t2 = tool().backup_file("a.txt", FileKind::Regular).unwrap();
    carry_out(&mut twice, &t2);
    assert_eq!(once, twice);
    assert_eq!(once["a.txt.bak"], b"abc".to_vec());
}

#[test]
fn restore_without_backup() {
    match tool().restore_file("missing.txt", FileKind::Missing) {
        Err(SafeBackupError::FileNotFound(m)) => {
            assert_eq!(m, "Backup file 'missing.txt.bak' does not exist")
        }
        _ => panic!("expected a missing backup"),
    }
}

#[test]
fn restore_from_directory_backup() {
    match tool().restore_file("a", FileKind::Other) {
        Err(SafeBackupError::InvalidPath(m)) => assert_eq!(m, "'a.bak' is not a regular file"),
        _ => panic!("expected an invalid path"),
    }
}

#[test]
fn delete_asks_first() {
    let d = tool().delete_file("report.txt", FileKind::Regular).unwrap();
    assert_eq!(d.target, "report.txt");
    assert_eq!(d.prompt, "Are you sure you want to delete 'report.txt'? (yes/no): ");
}

#[test]
fn delete_of_missing_or_odd_file() {
    match tool().delete_file("report.txt", FileKind::Missing) {
        Err(SafeBackupError::FileNotFound(m)) => assert_eq!(m, "File 'report.txt' does not exist"),
        _ => panic!("expected a missing file"),
    }
    match tool().delete_file("dev", FileKind::Other) {
        Err(SafeBackupError::InvalidPath(m)) => assert_eq!(m, "'dev' is not a regular file"),
        _ => panic!("expected an invalid path"),
    }
}

#[test]
fn delete_answered_no_keeps_file() {
    let d = tool().delete_file("report.txt", FileKind::Regular).unwrap();
    for answer in ["no", "", "y", "yes please", "\n"] {
        let o = confirm_delete(&d, answer);
        assert!(!o.remove);
        assert_eq!(o.target, "report.txt");
        assert_eq!(o.notice, "File deletion cancelled.");
        assert_eq!(o.record, "Delete operation cancelled for 'report.txt'");
    }
}

#[test]
fn delete_answered_yes_removes_file() {
    let d = tool().delete_file("report.txt", FileKind::Regular).unwrap();
    for answer in ["yes", "YES", "Yes", "  yEs \n"] {
        let o = confirm_delete(&d, answer);
        assert!(o.remove);
        assert_eq!(o.target, "report.txt");
        assert_eq!(o.notice, "File deleted successfully.");
        assert_eq!(o.record, "Performed delete on 'report.txt'");
    }
}

#[test]
fn decision_on_folded_answer() {
    let d = tool().delete_file("f", FileKind::Regular).unwrap();
    assert!(decide_delete(&d, "yes").remove);
    assert!(!decide_delete(&d, "YES").remove);
    assert!(!decide_delete(&d, " yes").remove);
}
