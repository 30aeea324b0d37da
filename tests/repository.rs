use padlock::ordering::sort_entries;
use padlock::adapter::{
    check_cipher_version, check_emergency_force, classify_cipher_failure, exit_code_for_error,
    exit_code_for_failures, next_recovery, prepare_decrypt, prepare_encrypt, prepare_rotation, RecoveryStrategy,
};
use padlock::error::AgeError;
use padlock::repository::{
    advance_file, compute_status, file_is_encrypted, glob_matches, overall_health, plan_lock, plan_unlock,
    strip_encrypted_suffix, validated, FileAction, FileEntry, FileEvent, FileStage, HealthStatus, LockOptions,
    OperationResult, OutputFormat, UnlockOptions,
};
use padlock::security::SecurityValidator;

fn violation(rule: &str) -> AgeError {
    AgeError::SecurityViolation { rule: rule.to_string() }
}

fn entry(path: &str, header: &[u8]) -> FileEntry {
    FileEntry { path: path.to_string(), header: header.to_vec(), read_error: None }
}

const TREE: [&str; 6] = [
    "simple.txt",
    "config.json",
    "secret.key",
    "data.csv",
    "subdir/nested.txt",
    "subdir/important.doc",
];

fn lock_options(backup: bool) -> LockOptions {
    LockOptions { recursive: true, format: OutputFormat::Binary, pattern_filter: None, backup_before_lock: backup }
}

fn unlock_options() -> UnlockOptions {
    UnlockOptions { selective: false, verify_before_unlock: true, pattern_filter: None, preserve_encrypted: false }
}

#[test]
fn weak_passphrase_rejected() {
    let v = SecurityValidator::new(false);
    assert_eq!(v.validate_passphrase("123"), Err(violation("passphrase.length")));
    let r = prepare_encrypt(&v, "simple.txt", "weak_test.age", "123", OutputFormat::Binary);
    assert_eq!(r.err(), Some(violation("passphrase.length")));
}

#[test]
fn injection_rejected() {
    let v = SecurityValidator::new(false);
    assert_eq!(v.validate_passphrase("test$(rm -rf /)"), Err(violation("passphrase.injection")));
    assert_eq!(v.validate_passphrase("passphrase;ls"), Err(violation("passphrase.injection")));
    assert_eq!(v.validate_passphrase("pass`phrase`"), Err(violation("passphrase.injection")));
    assert_eq!(v.validate_passphrase("passphrase\nx"), Err(violation("passphrase.injection")));
    assert_eq!(v.validate_passphrase("a && b c d"), Err(violation("passphrase.injection")));
    assert_eq!(v.validate_passphrase("a || b c d"), Err(violation("passphrase.injection")));
    assert_eq!(v.validate_passphrase("tab\tinside"), Err(violation("passphrase.injection")));
    let r = prepare_encrypt(&v, "simple.txt", "out.age", "test$(rm -rf /)", OutputFormat::Binary);
    assert_eq!(r.err(), Some(violation("passphrase.injection")));
}

#[test]
fn passphrase_policy_accepts_and_counts_characters() {
    let v = SecurityValidator::new(false);
    assert_eq!(v.validate_passphrase("12345678"), Err(violation("passphrase.digits")));
    assert_eq!(v.validate_passphrase("1234567"), Err(violation("passphrase.length")));
    assert!(v.validate_passphrase("test-passphrase-123").is_ok());
    assert!(v.validate_passphrase("$ dollar (paren)").is_ok());
    assert_eq!(v.validate_passphrase("ééééééé"), Err(violation("passphrase.length")));
    assert!(v.validate_passphrase("éééééééé").is_ok());
}

#[test]
fn path_traversal_rejected() {
    let v = SecurityValidator::new(true);
    assert_eq!(v.validate_file_path("../../../etc/passwd", "/tmp/repo"), Err(violation("path.escape")));
    let lax = SecurityValidator::new(false);
    assert_eq!(lax.validate_file_path("a/../b", "/tmp/repo"), Err(violation("path.escape")));
    assert_eq!(lax.validate_file_path("/etc/passwd", "/tmp/repo"), Err(violation("path.escape")));
    assert_eq!(lax.validate_file_path("/tmp/repository/x", "/tmp/repo"), Err(violation("path.escape")));
    assert!(lax.validate_file_path("/tmp/repo/x..y", "/tmp/repo").is_ok());
    assert!(lax.validate_file_path("subdir/nested.txt", "/tmp/repo").is_ok());
}

#[test]
fn strict_mode_rules() {
    let v = SecurityValidator::with_allowed_extensions(true, vec!["txt".to_string(), "json".to_string()]);
    assert!(v.validate_file_path("subdir/nested.txt", "/tmp/repo").is_ok());
    assert!(v.validate_file_path("./config.json", "/tmp/repo").is_ok());
    assert_eq!(v.validate_file_path("subdir/.env.txt", "/tmp/repo"), Err(violation("path.hidden")));
    assert_eq!(v.validate_file_path("data.csv", "/tmp/repo"), Err(violation("path.extension")));
    assert_eq!(v.validate_file_path("txt", "/tmp/repo"), Err(violation("path.extension")));
}

#[test]
fn encrypted_files_recognised() {
    assert!(file_is_encrypted("simple.txt.age", b"age-encryption.org/v1"));
    assert!(file_is_encrypted("config.json.armor", b""));
    assert!(file_is_encrypted("noext", b"-----BEGIN AGE ENCRYPTED FILE-----\nabc"));
    assert!(!file_is_encrypted("simple.txt", b"Hello, World!"));
    assert!(!file_is_encrypted("age", b"-----BEGIN AGE"));
}

#[test]
fn repository_lock_unlock_status() {
    let plain: Vec<FileEntry> = TREE.iter().map(|p| entry(p, b"plain text")).collect();
    let before = compute_status(&plain);
    assert_eq!(before.total_files, 6);
    assert_eq!(before.encrypted_files, 0);
    assert!(before.is_fully_decrypted());

    let plan = plan_lock(&plain, &lock_options(false));
    assert_eq!(plan.len(), 6);
    assert_eq!(plan[0].target, "simple.txt.age");
    assert_eq!(plan[0].temporary, "simple.txt.age.tmp");
    assert_eq!(plan[0].backup, None);
    assert_eq!(plan[5].source, "subdir/important.doc");

    let locked: Vec<FileEntry> = plan.iter().map(|p| entry(&p.target, b"age-encryption.org/v1")).collect();
    let status = compute_status(&locked);
    assert_eq!(status.encryption_percentage(), 100);
    assert!(status.is_fully_encrypted());
    assert!(plan_lock(&locked, &lock_options(false)).is_empty());

    let unplan = plan_unlock(&locked, &unlock_options());
    assert_eq!(unplan.len(), 6);
    assert_eq!(unplan[4].target, "subdir/nested.txt");
    assert_eq!(unplan[4].temporary, "subdir/nested.txt.tmp");
    let unlocked: Vec<FileEntry> = unplan.iter().map(|p| entry(&p.target, b"plain")).collect();
    let after = compute_status(&unlocked);
    assert_eq!(after.encrypted_files, 0);
    assert_eq!(after.total_files, 6);
}

#[test]
fn status_arithmetic_and_failures() {
    let mut entries = vec![entry("a.txt", b"x"), entry("b.age", b""), entry("c.armor", b"")];
    entries.push(FileEntry { path: "d.bin".to_string(), header: vec![], read_error: Some("denied".to_string()) });
    let s = compute_status(&entries);
    assert_eq!(s.total_files, 3);
    assert_eq!(s.encrypted_files, 2);
    assert_eq!(s.unencrypted_files, 1);
    assert_eq!(s.total_files, s.encrypted_files + s.unencrypted_files);
    assert_eq!(s.failed_files, vec!["d.bin: denied".to_string()]);
    assert_eq!(s.encryption_percentage(), 66);
    assert!(!s.is_fully_encrypted());
    assert!(!s.is_fully_decrypted());
    let empty = compute_status(&vec![]);
    assert_eq!(empty.encryption_percentage(), 0);
    assert!(!empty.is_fully_encrypted());
    assert!(!empty.is_fully_decrypted());
}

#[test]
fn status_reads_are_stable() {
    let entries: Vec<FileEntry> = TREE.iter().map(|p| entry(p, b"x")).collect();
    let a = plan_lock(&entries, &lock_options(true));
    let b = plan_lock(&entries, &lock_options(true));
    let sa: Vec<String> = a.iter().map(|p| p.source.clone()).collect();
    let sb: Vec<String> = b.iter().map(|p| p.source.clone()).collect();
    assert_eq!(sa, sb);
    assert_eq!(a[1].backup.as_deref(), Some("config.json.bak"));
    let s1 = compute_status(&entries);
    let s2 = compute_status(&entries);
    assert_eq!((s1.total_files, s1.encrypted_files), (s2.total_files, s2.encrypted_files));
}

#[test]
fn pattern_filter_applies() {
    let entries: Vec<FileEntry> = TREE.iter().map(|p| entry(p, b"x")).collect();
    let mut options = lock_options(false);
    options.pattern_filter = Some("*.txt".to_string());
    let plan = plan_lock(&entries, &options);
    let sources: Vec<&str> = plan.iter().map(|p| p.source.as_str()).collect();
    assert_eq!(sources, vec!["simple.txt", "subdir/nested.txt"]);
    assert!(glob_matches("s?cret.*", "secret.key"));
    assert!(!glob_matches("*.txt", "data.csv"));
    assert!(glob_matches("*", ""));
}

#[test]
fn suffix_stripping() {
    assert_eq!(strip_encrypted_suffix("a/b.txt.age"), Some("a/b.txt".to_string()));
    assert_eq!(strip_encrypted_suffix("ü.armor"), Some("ü".to_string()));
    assert_eq!(strip_encrypted_suffix("plain.txt"), None);
}

#[test]
fn per_file_state_machine() {
    assert_eq!(validated(false), (FileStage::Failed, FileAction::Nothing));
    let (stage, action) = validated(true);
    assert_eq!(action, FileAction::WriteTemporary);
    assert_eq!(advance_file(stage, FileEvent::Failed, true), (FileStage::Failed, FileAction::DeleteTemporary));
    let (stage, action) = advance_file(stage, FileEvent::Succeeded, true);
    assert_eq!(action, FileAction::RenameTemporary);
    assert_eq!(advance_file(stage, FileEvent::Failed, true), (FileStage::Failed, FileAction::DeleteTemporary));
    assert_eq!(advance_file(stage, FileEvent::Succeeded, false), (FileStage::Preserved, FileAction::Nothing));
    let (stage, action) = advance_file(stage, FileEvent::Succeeded, true);
    assert_eq!((stage, action), (FileStage::Renamed, FileAction::RemoveSource));
    assert_eq!(advance_file(stage, FileEvent::Succeeded, true), (FileStage::Cleaned, FileAction::Nothing));
}

#[test]
fn operation_results() {
    let mut r = OperationResult::new();
    r.record(&"a".to_string(), &Err("AuthenticationFailed".to_string()));
    let failed_only = r.clone().finish("rotate");
    assert!(failed_only.is_err());
    r.record(&"b".to_string(), &Ok(()));
    let done = r.finish("rotate").unwrap();
    assert_eq!(done.processed_files, vec!["b".to_string()]);
    assert_eq!(done.failed_files, vec!["a: AuthenticationFailed".to_string()]);
    assert!(OperationResult::new().finish("lock").is_ok());
    assert_eq!(overall_health(3, 0), HealthStatus::Healthy);
    assert_eq!(overall_health(3, 1), HealthStatus::Degraded);
    assert_eq!(overall_health(0, 1), HealthStatus::Unhealthy);
}

#[test]
fn cipher_invocations() {
    let v = SecurityValidator::new(false);
    let c = prepare_encrypt(&v, "in.json", "out.armor", "armor-test-789", OutputFormat::AsciiArmor).unwrap();
    assert_eq!(c.args, vec!["--encrypt", "--passphrase", "--armor", "--output", "out.armor.tmp", "in.json"]);
    assert_eq!(c.final_output, "out.armor");
    assert!(!c.args.iter().any(|a| a == "armor-test-789"));
    let d = prepare_decrypt("out.armor", "plain.json");
    assert_eq!(d.args, vec!["--decrypt", "--output", "plain.json.tmp", "out.armor"]);
}

#[test]
fn cipher_failures_and_exit_codes() {
    assert_eq!(classify_cipher_failure("f", "age: error: incorrect passphrase"), AgeError::AuthenticationFailed);
    assert_eq!(
        classify_cipher_failure("f", "open f: no such file or directory"),
        AgeError::IoError { path: "f".to_string(), kind: "not found".to_string() }
    );
    assert_eq!(classify_cipher_failure("f", "boom"), AgeError::InternalError { detail: "boom".to_string() });
    assert!(check_cipher_version("v1.1.1").is_ok());
    assert!(check_cipher_version("1.0.0").is_ok());
    assert_eq!(check_cipher_version("0.9"), Err(AgeError::CipherUnavailable));
    assert_eq!(exit_code_for_error(&violation("passphrase.length")), 2);
    assert_eq!(exit_code_for_error(&AgeError::CipherUnavailable), 3);
    assert_eq!(exit_code_for_error(&AgeError::AuthenticationFailed), 1);
    assert_eq!(exit_code_for_failures(0), 0);
    assert_eq!(exit_code_for_failures(2), 1);
}

#[test]
fn emergency_recovery_order() {
    assert!(check_emergency_force(false).is_err());
    assert!(check_emergency_force(true).is_ok());
    assert_eq!(next_recovery(RecoveryStrategy::NormalDecrypt, true), Some(RecoveryStrategy::BackupDecrypt));
    assert_eq!(next_recovery(RecoveryStrategy::NormalDecrypt, false), Some(RecoveryStrategy::ReportOnly));
    assert_eq!(next_recovery(RecoveryStrategy::BackupDecrypt, true), Some(RecoveryStrategy::ReportOnly));
    assert_eq!(next_recovery(RecoveryStrategy::ReportOnly, true), None);
}

#[test]
fn walk_order_is_sorted_and_stable() {
    let shuffled = vec![
        entry("subdir/nested.txt", b""),
        entry("simple.txt", b""),
        entry("data.csv", b""),
        entry("subdir/important.doc", b""),
        entry("config.json", b""),
        entry("secret.key", b""),
        entry("data.csv", b"dup"),
    ];
    let mut reversed = shuffled.clone();
    reversed.reverse();
    let a: Vec<String> = sort_entries(shuffled).into_iter().map(|e| e.path).collect();
    let b: Vec<String> = sort_entries(reversed).into_iter().map(|e| e.path).collect();
    assert_eq!(
        a,
        vec!["config.json", "data.csv", "secret.key", "simple.txt", "subdir/important.doc", "subdir/nested.txt"]
    );
    assert_eq!(a, b);
    let prefix: Vec<String> = sort_entries(vec![entry("ab", b""), entry("a", b""), entry("b", b"")])
        .into_iter()
        .map(|e| e.path)
        .collect();
    assert_eq!(prefix, vec!["a", "ab", "b"]);
}

#[test]
fn rotation_invocations() {
    let v = SecurityValidator::new(false);
    assert_eq!(prepare_rotation(&v, "a.age", "123").err(), Some(violation("passphrase.length")));
    let r = prepare_rotation(&v, "a.age", "new-passphrase-1").unwrap();
    assert_eq!(r.decrypt.args, vec!["--decrypt", "--output", "a.age.plain.tmp", "a.age"]);
    assert_eq!(r.encrypt.args, vec!["--encrypt", "--passphrase", "--output", "a.age.tmp", "a.age.plain.tmp"]);
    assert_eq!(r.encrypt.final_output, "a.age");
}
