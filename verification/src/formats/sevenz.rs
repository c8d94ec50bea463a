//! What the outcome of a 7z extraction means.

use vstd::prelude::*;

use super::{mentions_any, mentions_any_keyword};
use crate::ExtractError;

verus! {

/// The words that mark an error of the 7z decoder as one about the password.
pub open spec fn sevenz_password_keywords() -> Seq<Seq<char>> {
    seq![
        "encrypted"@,
        "password"@,
        "Wrong password"@,
        "Error as unknown"@,
        "Decoder error"@,
        "k_wrongPassword"@,
        "crypto"@,
    ]
}

/// Whether an error message of the 7z decoder is about the password: it holds one of
/// `sevenz_password_keywords`, ignoring case.
pub fn is_7z_password_error(msg: &str) -> (r: bool)
    ensures
        r == mentions_any(msg@, sevenz_password_keywords()),
{
    let keywords: [&str; 7] = [
        "encrypted",
        "password",
        "Wrong password",
        "Error as unknown",
        "Decoder error",
        "k_wrongPassword",
        "crypto",
    ];
    let r = mentions_any_keyword(msg, &keywords);
    assert(keywords@.map_values(|k: &str| k@) =~= sevenz_password_keywords());
    r
}

/// The error for a failed 7z extraction, from the decoder's message and whether a
/// password was given: a password error without a password is `PasswordRequired`; every
/// other failure, a password error with a password among them, is `ExtractFailed` with
/// the message.
pub fn sevenz_failure(msg: &str, password_given: bool) -> (r: ExtractError)
    ensures
        !password_given && mentions_any(msg@, sevenz_password_keywords()) ==> r == ExtractError::PasswordRequired,
        !(!password_given && mentions_any(msg@, sevenz_password_keywords())) ==> (r matches ExtractError::ExtractFailed(m)
            && m@ == "解压 7z 文件失败: "@ + msg@),
{
    if !password_given && is_7z_password_error(msg) {
        ExtractError::PasswordRequired
    } else {
        ExtractError::failed("解压 7z 文件失败: ", msg)
    }
}

} // verus!
