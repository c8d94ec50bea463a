//! What the outcome of a RAR extraction means.

use vstd::prelude::*;

use super::{mentions_any, mentions_any_keyword};
use crate::ExtractError;

verus! {

/// The words that mark an error of unrar as one about the password.
pub open spec fn rar_password_keywords() -> Seq<Seq<char>> {
    seq![
        "password"@,
        "encrypted"@,
        "Missing password"@,
        "Wrong password"@,
        "ERR_MISSING_PASSWORD"@,
        "ERR_WRONG_PASSWORD"@,
        "encryption"@,
    ]
}

/// Whether an error message of unrar is about the password: it holds one of
/// `rar_password_keywords`, ignoring case.
pub fn is_rar_password_error(msg: &str) -> (r: bool)
    ensures
        r == mentions_any(msg@, rar_password_keywords()),
{
    let keywords: [&str; 7] = [
        "password",
        "encrypted",
        "Missing password",
        "Wrong password",
        "ERR_MISSING_PASSWORD",
        "ERR_WRONG_PASSWORD",
        "encryption",
    ];
    let r = mentions_any_keyword(msg, &keywords);
    assert(keywords@.map_values(|k: &str| k@) =~= rar_password_keywords());
    r
}

/// The step of a RAR extraction that failed.
#[derive(Debug, PartialEq, Eq, Structural)]
pub enum RarStage {
    /// Opening the archive.
    Open,
    /// Extracting its entries.
    Process,
}

/// What is reported, before the error's own words, when a step fails.
pub open spec fn rar_failure_prefix(stage: RarStage) -> Seq<char> {
    match stage {
        RarStage::Open => "打开 RAR 文件失败: "@,
        RarStage::Process => "解压 RAR 文件失败: "@,
    }
}

/// The error for a failed RAR step: `PasswordRequired` when no password was given and
/// the message is about the password, else `ExtractFailed` with the message.
pub fn rar_failure(stage: RarStage, msg: &str, password_given: bool) -> (r: ExtractError)
    ensures
        !password_given && mentions_any(msg@, rar_password_keywords())
            ==> r == ExtractError::PasswordRequired,
        !(!password_given && mentions_any(msg@, rar_password_keywords()))
            ==> (r matches ExtractError::ExtractFailed(m) && m@ == rar_failure_prefix(stage) + msg@),
{
    if !password_given && is_rar_password_error(msg) {
        ExtractError::PasswordRequired
    } else {
        match stage {
            RarStage::Open => ExtractError::failed("打开 RAR 文件失败: ", msg),
            RarStage::Process => ExtractError::failed("解压 RAR 文件失败: ", msg),
        }
    }
}

} // verus!
