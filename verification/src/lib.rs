//! Verified core of an archive extractor for ZIP, 7z and RAR archives.

use vstd::prelude::*;

pub mod archive_helper;
pub mod cli;
pub mod context_menu;
pub mod formats;
pub mod gui;
pub mod path_utils;
pub mod text;

verus! {

/// Errors that can come out of an extraction.
#[derive(Debug)]
pub enum ExtractError {
    /// The archive is encrypted and no password was given.
    PasswordRequired,
    /// Extraction failed (I/O error, malformed archive, ...), with the reason.
    ExtractFailed(String),
}

/// The text of `prefix` followed by `detail`.
pub fn joined(prefix: &str, detail: &str) -> (r: String)
    ensures
        r@ == prefix@ + detail@,
{
    let mut s = String::from_str(prefix);
    s.append(detail);
    s
}

impl ExtractError {
    /// `ExtractFailed` whose reason is `prefix` followed by `detail`.
    pub fn failed(prefix: &str, detail: &str) -> (r: ExtractError)
        ensures
            r matches ExtractError::ExtractFailed(m) && m@ == prefix@ + detail@,
    {
        ExtractError::ExtractFailed(joined(prefix, detail))
    }

    /// The message shown to the user for this error.
    pub fn message(&self) -> (r: String)
        ensures
            r@ == match self {
                ExtractError::PasswordRequired => "需要密码"@,
                ExtractError::ExtractFailed(m) => "解压失败: "@ + m@,
            },
    {
        match self {
            ExtractError::PasswordRequired => String::from_str("需要密码"),
            ExtractError::ExtractFailed(m) => joined("解压失败: ", m.as_str()),
        }
    }
}

} // verus!
