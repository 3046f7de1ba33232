use safe_backup::audit::log_line;
use safe_backup::command::{accept_input, parse_command, unknown_command, Command};
use safe_backup::error::SafeBackupError;
use safe_backup::ops::SafeBackup;

#[test]
fn commands_in_any_case() {
    assert_eq!(parse_command("backup"), Some(Command::Backup));
    assert_eq!(parse_command("BACKUP"), Some(Command::Backup));
    assert_eq!(parse_command("Restore"), Some(Command::Restore));
    assert_eq!(parse_command("dElEtE"), Some(Command::Delete));
    assert_eq!(parse_command("copy"), None);
    assert_eq!(parse_command(""), None);
    assert_eq!(parse_command("backups"), None);
}

#[test]
fn input_is_trimmed() {
    assert_eq!(accept_input("  report.txt \n").unwrap(), "report.txt");
    assert_eq!(accept_input("\n").unwrap(), "");
}

#[test]
fn input_length_limit() {
    let longest = "a".repeat(255);
    assert_eq!(accept_input(&format!(" {}\n", longest)).unwrap(), longest);
    match accept_input(&"a".repeat(256)) {
        Err(SafeBackupError::InvalidPath(m)) => assert_eq!(m, "Input too long"),
        _ => panic!("expected a refusal"),
    }
    let wide = "é".repeat(255);
    assert_eq!(accept_input(&wide).unwrap(), wide);
}

#[test]
fn unknown_command_texts() {
    let (notice, record) = unknown_command("copy");
    assert_eq!(notice, "Unknown command: 'copy'");
    assert_eq!(record, "Unknown command attempted: 'copy'");
}

#[test]
fn audit_line_layout() {
    assert_eq!(
        log_line("2024-01-02 03:04:05 UTC", "Performed backup of 'report.txt'"),
        "[2024-01-02 03:04:05 UTC] Performed backup of 'report.txt'\n"
    );
}

#[test]
fn audit_entry_is_stamped_now() {
    let t = SafeBackup::new("/srv").unwrap();
    let line = t.log_entry("Performed backup of 'report.txt'");
    assert!(line.starts_with('['));
    assert!(line.ends_with("] Performed backup of 'report.txt'\n"));
    let stamp = &line[1..line.find(']').unwrap()];
    assert_eq!(stamp.len(), "2024-01-02 03:04:05 UTC".len());
    assert!(stamp.ends_with(" UTC"));
}
