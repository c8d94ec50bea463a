//! Recognising an archive by its first bytes, and what each format's outcome means.

use vstd::prelude::*;

pub mod rar;
pub mod sevenz;
pub mod zip;

use crate::path_utils::opt_chars;
use crate::text::{chars_of, contains_chars, contains_seq, to_lowercase, unicode_lowercase};

verus! {

/// How many bytes at the start of a file are read to recognise its type.
pub const HEADER_SIZE: usize = 1024;

/// The archive formats this library extracts, and what else a file can be.
#[derive(Debug, Clone, Copy, PartialEq, Eq, Structural)]
pub enum ArchiveFormat {
    Zip,
    SevenZ,
    Rar,
    /// A recognised type that is not an archive this library extracts.
    Unsupported,
}

/// A file type recognised from the first bytes of a file.
#[derive(Debug)]
pub struct FileKind {
    /// The MIME type, as `infer` names it.
    pub mime: String,
    /// The archive format that this MIME type stands for.
    pub format: ArchiveFormat,
}

/// What `infer::get` recognises in `header`, given as the MIME type of the match.
pub uninterp spec fn infer_mime(header: Seq<u8>) -> Option<Seq<char>>;

/// Calls `infer::get` and takes the MIME type of what it recognises; the contract names
/// the result.
#[verifier::external_body]
fn infer_get_mime(header: &[u8]) -> (r: Option<String>)
    ensures
        opt_chars(r) == infer_mime(header@),
{
    match infer::get(header) {
        Some(kind) => Some(kind.mime_type().to_string()),
        None => None,
    }
}

/// The archive format of a MIME type.
pub open spec fn format_of_mime(mime: Seq<char>) -> ArchiveFormat {
    if mime == "application/zip"@ {
        ArchiveFormat::Zip
    } else if mime == "application/x-7z-compressed"@ {
        ArchiveFormat::SevenZ
    } else if mime == "application/vnd.rar"@ {
        ArchiveFormat::Rar
    } else {
        ArchiveFormat::Unsupported
    }
}

/// Only the three archive types are extracted: a MIME type is ZIP exactly when it is
/// `application/zip`, 7z exactly when it is `application/x-7z-compressed`, RAR exactly
/// when it is `application/vnd.rar`; every other type (documents built on ZIP, such as
/// Word or Excel files, among them) is unsupported, and such a file is skipped.
pub proof fn lemma_only_archive_types_are_extracted(mime: Seq<char>)
    ensures
        (format_of_mime(mime) == ArchiveFormat::Zip) <==> mime == "application/zip"@,
        (format_of_mime(mime) == ArchiveFormat::SevenZ) <==> mime == "application/x-7z-compressed"@,
        (format_of_mime(mime) == ArchiveFormat::Rar) <==> mime == "application/vnd.rar"@,
        (format_of_mime(mime) == ArchiveFormat::Unsupported) <==> (mime != "application/zip"@
            && mime != "application/x-7z-compressed"@ && mime != "application/vnd.rar"@),
{
    reveal_strlit("application/zip");
    reveal_strlit("application/x-7z-compressed");
    reveal_strlit("application/vnd.rar");
    assert("application/zip"@[12] == 'z');
    assert("application/x-7z-compressed"@[12] == 'x');
    assert("application/vnd.rar"@[12] == 'v');
}

/// Whether a file that starts with `header` is an archive this library extracts.
pub open spec fn is_archive_header(header: Seq<u8>) -> bool {
    infer_mime(header) matches Some(m) && format_of_mime(m) != ArchiveFormat::Unsupported
}

/// The archive format of a MIME type.
pub fn format_from_mime(mime: &str) -> (r: ArchiveFormat)
    ensures
        r == format_of_mime(mime@),
{
    let m = String::from_str(mime);
    if m == String::from_str("application/zip") {
        ArchiveFormat::Zip
    } else if m == String::from_str("application/x-7z-compressed") {
        ArchiveFormat::SevenZ
    } else if m == String::from_str("application/vnd.rar") {
        ArchiveFormat::Rar
    } else {
        ArchiveFormat::Unsupported
    }
}

/// Recognises the type of a file from its first bytes (at most `HEADER_SIZE` of them
/// are needed): `None` when the type is unknown.
pub fn sniff(header: &[u8]) -> (r: Option<FileKind>)
    ensures
        match r {
            Some(k) => infer_mime(header@) == Some(k.mime@) && k.format == format_of_mime(k.mime@),
            None => infer_mime(header@) is None,
        },
{
    match infer_get_mime(header) {
        Some(mime) => {
            let format = format_from_mime(mime.as_str());
            Some(FileKind { mime, format })
        },
        None => None,
    }
}

// ---------------------------------------------------------------------------
// Error messages of the decompressors
// ---------------------------------------------------------------------------

/// Some keyword of `keywords` occurs in `msg`, both taken in lowercase.
pub open spec fn mentions_any(msg: Seq<char>, keywords: Seq<Seq<char>>) -> bool {
    exists|i: int|
        0 <= i < keywords.len() && contains_seq(
            unicode_lowercase(msg),
            #[trigger] unicode_lowercase(keywords[i]),
        )
}

/// Whether some keyword of `keywords` occurs in `msg`, ignoring case.
pub fn mentions_any_keyword(msg: &str, keywords: &[&str]) -> (r: bool)
    ensures
        r == mentions_any(msg@, keywords@.map_values(|k: &str| k@)),
{
    let ghost kws = keywords@.map_values(|k: &str| k@);
    let lower = chars_of(&to_lowercase(msg));
    let mut i: usize = 0;
    while i < keywords.len()
        invariant
            i <= keywords.len(),
            kws == keywords@.map_values(|k: &str| k@),
            lower@ == unicode_lowercase(msg@),
            forall|j: int|
                0 <= j < i ==> !contains_seq(lower@, #[trigger] unicode_lowercase(kws[j])),
        decreases keywords.len() - i,
    {
        let kw = chars_of(&to_lowercase(keywords[i]));
        assert(kws[i as int] == keywords@[i as int]@);
        if contains_chars(&lower, &kw) {
            return true;
        }
        i = i + 1;
    }
    false
}

} // verus!
