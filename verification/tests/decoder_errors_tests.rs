use archive_extractor::formats::rar::{is_rar_password_error, rar_failure, RarStage};
use archive_extractor::formats::sevenz::{is_7z_password_error, sevenz_failure};
use archive_extractor::ExtractError;

#[test]
fn sevenz_password_messages() {
    assert!(is_7z_password_error("PasswordRequired"));
    assert!(is_7z_password_error("ENCRYPTED header"));
    assert!(is_7z_password_error("maybe wrong password"));
    assert!(is_7z_password_error("Crypto failure"));
    assert!(is_7z_password_error("K_WRONGPASSWORD"));
    assert!(is_7z_password_error("7z: DECODER ERROR at block 3"));
    assert!(!is_7z_password_error("unsupported compression method"));
    assert!(!is_7z_password_error(""));
}

#[test]
fn sevenz_failures() {
    match sevenz_failure("Bad password", true) {
        ExtractError::ExtractFailed(m) => assert_eq!(m, "解压 7z 文件失败: Bad password"),
        other => panic!("unexpected {:?}", other),
    }
    assert!(matches!(sevenz_failure("Bad password", false), ExtractError::PasswordRequired));
    match sevenz_failure("io error", true) {
        ExtractError::ExtractFailed(m) => assert_eq!(m, "解压 7z 文件失败: io error"),
        other => panic!("unexpected {:?}", other),
    }
}

#[test]
fn rar_password_messages() {
    assert!(is_rar_password_error("Password for encrypted archive not specified"));
    assert!(is_rar_password_error("Wrong password was specified"));
    assert!(is_rar_password_error("err_missing_password"));
    assert!(!is_rar_password_error("Not a RAR archive"));
    assert!(!is_rar_password_error("Could not open archive"));
}

#[test]
fn rar_failures() {
    assert!(matches!(
        rar_failure(RarStage::Process, "Password for encrypted archive not specified", false),
        ExtractError::PasswordRequired
    ));
    match rar_failure(RarStage::Process, "Wrong password was specified", true) {
        ExtractError::ExtractFailed(m) => assert_eq!(m, "解压 RAR 文件失败: Wrong password was specified"),
        other => panic!("unexpected {:?}", other),
    }
    match rar_failure(RarStage::Open, "Not a RAR archive", false) {
        ExtractError::ExtractFailed(m) => assert_eq!(m, "打开 RAR 文件失败: Not a RAR archive"),
        other => panic!("unexpected {:?}", other),
    }
}
