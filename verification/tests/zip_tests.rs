use archive_extractor::formats::zip::{
    is_password_required_error, to_forward_slashes, zip_entry_action, zip_open_failure,
    zip_precheck, ZipEntryAction, ZipEntryRead,
};
use archive_extractor::ExtractError;

#[test]
fn test_is_password_required_error() {
    let err = zip::result::ZipError::UnsupportedArchive(zip::result::ZipError::PASSWORD_REQUIRED);
    assert!(is_password_required_error(&err));

    let other_err = zip::result::ZipError::FileNotFound;
    assert!(!is_password_required_error(&other_err));
}

#[test]
fn other_unsupported_archive_is_no_password_error() {
    let err = zip::result::ZipError::UnsupportedArchive("Compression method not supported");
    assert!(!is_password_required_error(&err));
    assert!(!is_password_required_error(&zip::result::ZipError::InvalidPassword));
}

fn entry(name: &str, is_dir: bool) -> ZipEntryRead {
    ZipEntryRead::Entry { name: name.to_string(), is_dir }
}

#[test]
fn safe_entries_are_written_with_forward_slashes() {
    match zip_entry_action(0, entry("dir1\\file1.txt", false)) {
        ZipEntryAction::WriteFile(p) => assert_eq!(p, "dir1/file1.txt"),
        other => panic!("unexpected {:?}", other),
    }
    match zip_entry_action(1, entry("dir2/", true)) {
        ZipEntryAction::CreateDir(p) => assert_eq!(p, "dir2/"),
        other => panic!("unexpected {:?}", other),
    }
}

#[test]
fn traversing_entries_are_skipped() {
    for name in ["../unsafe.txt", "subdir/../../evil.txt", "a\\..\\b.txt", "x..y"] {
        match zip_entry_action(0, entry(name, false)) {
            ZipEntryAction::SkipUnsafe(p) => assert_eq!(p, name.replace('\\', "/")),
            other => panic!("unexpected {:?} for {}", other, name),
        }
    }
}

#[test]
fn unreadable_entries_stop_the_extraction() {
    let read = ZipEntryRead::Failed { password_required: true, reason: String::new() };
    assert!(matches!(
        zip_entry_action(4, read),
        ZipEntryAction::Stop(ExtractError::PasswordRequired)
    ));
    let read = ZipEntryRead::Failed {
        password_required: false,
        reason: "provided password is incorrect".to_string(),
    };
    match zip_entry_action(12, read) {
        ZipEntryAction::Stop(ExtractError::ExtractFailed(m)) => {
            assert_eq!(m, "读取 ZIP 条目 #12 失败: provided password is incorrect")
        }
        other => panic!("unexpected {:?}", other),
    }
}

#[test]
fn precheck_only_without_password() {
    let locked = ZipEntryRead::Failed { password_required: true, reason: String::new() };
    assert!(matches!(zip_precheck(false, &locked), Some(ExtractError::PasswordRequired)));
    assert!(zip_precheck(true, &locked).is_none());
    assert!(zip_precheck(false, &entry("a.txt", false)).is_none());
    let broken = ZipEntryRead::Failed { password_required: false, reason: "bad".to_string() };
    assert!(zip_precheck(false, &broken).is_none());
}

#[test]
fn slashes_and_open_failure() {
    assert_eq!(to_forward_slashes("a\\b\\c").into_iter().collect::<String>(), "a/b/c");
    match zip_open_failure("invalid Zip archive") {
        ExtractError::ExtractFailed(m) => assert_eq!(m, "无法打开 ZIP 文件: invalid Zip archive"),
        other => panic!("unexpected {:?}", other),
    }
}

use archive_extractor::formats::zip::{ZipExtraction, ZipStep};

fn locked() -> ZipEntryRead {
    ZipEntryRead::Failed { password_required: true, reason: String::new() }
}

#[test]
fn empty_archive_ends_at_once() {
    let (_, step) = ZipExtraction::new(false, 0);
    assert!(matches!(step, ZipStep::Finish(Ok(()))));
}

#[test]
fn locked_first_entry_stops_before_anything_is_written() {
    let (mut run, step) = ZipExtraction::new(false, 3);
    assert!(matches!(step, ZipStep::ReadEntry { index: 0, with_password: false }));
    assert!(matches!(run.on_read(locked()), ZipStep::Finish(Err(ExtractError::PasswordRequired))));
}

#[test]
fn entries_are_read_in_order_then_the_run_ends() {
    let (mut run, _) = ZipExtraction::new(false, 2);
    // The check beforehand, then the loop from entry 0.
    assert!(matches!(run.on_read(entry("a.txt", false)), ZipStep::ReadEntry { index: 0, with_password: false }));
    assert!(matches!(run.on_read(entry("a.txt", false)), ZipStep::Apply(ZipEntryAction::WriteFile(_))));
    assert!(matches!(run.on_applied(), ZipStep::ReadEntry { index: 1, with_password: false }));
    assert!(matches!(run.on_read(entry("../b.txt", false)), ZipStep::Apply(ZipEntryAction::SkipUnsafe(_))));
    assert!(matches!(run.on_applied(), ZipStep::Finish(Ok(()))));
}

#[test]
fn encrypted_entry_in_the_middle_stops_the_run() {
    let (mut run, _) = ZipExtraction::new(false, 2);
    run.on_read(entry("public.txt", false));
    run.on_read(entry("public.txt", false));
    run.on_applied();
    assert!(matches!(run.on_read(locked()), ZipStep::Finish(Err(ExtractError::PasswordRequired))));
}

#[test]
fn with_a_password_every_entry_is_decrypted() {
    let (mut run, step) = ZipExtraction::new(true, 1);
    assert!(matches!(step, ZipStep::ReadEntry { index: 0, with_password: true }));
    let bad = ZipEntryRead::Failed { password_required: false, reason: "provided password is incorrect".to_string() };
    match run.on_read(bad) {
        ZipStep::Finish(Err(ExtractError::ExtractFailed(m))) => {
            assert_eq!(m, "读取 ZIP 条目 #0 失败: provided password is incorrect")
        }
        other => panic!("unexpected {:?}", other),
    }
}

#[test]
fn rooted_entries_are_skipped() {
    for name in ["/etc/x", "\\etc\\x", "C:\\Windows\\x.dll", "c:/x.txt", "//server/share/x"] {
        match zip_entry_action(0, entry(name, false)) {
            ZipEntryAction::SkipUnsafe(p) => assert_eq!(p, name.replace('\\', "/")),
            other => panic!("unexpected {:?} for {}", other, name),
        }
    }
    // A colon later in the name, or after a non-letter, is no drive prefix.
    for name in ["a/b:c.txt", "1:x.txt"] {
        assert!(matches!(zip_entry_action(0, entry(name, false)), ZipEntryAction::WriteFile(_)));
    }
}

#[test]
fn run_keeps_its_size_and_password_across_entries() {
    let (mut run, _) = ZipExtraction::new(false, 3);
    assert!(matches!(run.on_read(entry("a.txt", false)), ZipStep::ReadEntry { index: 0, with_password: false }));
    assert!(!run.applying);
    for i in 0..3usize {
        assert!(matches!(run.on_read(entry("f.txt", false)), ZipStep::Apply(ZipEntryAction::WriteFile(_))));
        let step = run.on_applied();
        assert_eq!(run.entry_count, 3);
        assert!(!run.password_given);
        if i < 2 {
            assert!(matches!(step, ZipStep::ReadEntry { index, with_password: false } if index == i + 1));
        } else {
            assert!(matches!(step, ZipStep::Finish(Ok(()))));
        }
    }
}

#[test]
fn entries_before_an_encrypted_one_are_applied() {
    let (mut run, _) = ZipExtraction::new(false, 3);
    run.on_read(entry("a.txt", false));
    assert!(matches!(run.on_read(entry("a.txt", false)), ZipStep::Apply(ZipEntryAction::WriteFile(_))));
    run.on_applied();
    assert!(matches!(run.on_read(entry("../evil", false)), ZipStep::Apply(ZipEntryAction::SkipUnsafe(_))));
    run.on_applied();
    assert!(matches!(run.on_read(locked()), ZipStep::Finish(Err(ExtractError::PasswordRequired))));
    assert!(run.done);
}
