//! Decisions taken while extracting a ZIP archive.

use vstd::prelude::*;

use crate::text::{chars_of, contains_chars, contains_seq, decimal, decimal_chars, extend_chars, occurs_at, string_of};
use crate::ExtractError;

verus! {

/// `zip::result::ZipError`, carried through as an opaque value.
#[verifier::external_type_specification]
#[verifier::external_body]
pub struct ExZipError(zip::result::ZipError);

/// The detail text of a `ZipError::UnsupportedArchive`, and `None` for every other
/// variant.
pub uninterp spec fn zip_unsupported_detail(e: zip::result::ZipError) -> Option<Seq<char>>;

/// Tells the variants of a `zip::result::ZipError` apart: the detail of an
/// `UnsupportedArchive`, `None` for the others; the contract names the result.
#[verifier::external_body]
fn unsupported_detail(e: &zip::result::ZipError) -> (r: Option<String>)
    ensures
        crate::path_utils::opt_chars(r) == zip_unsupported_detail(*e),
{
    match e {
        zip::result::ZipError::UnsupportedArchive(detail) => Some(detail.to_string()),
        _ => None,
    }
}

/// The text that `zip` puts in an `UnsupportedArchive` error when an entry is encrypted
/// and no password was given (`ZipError::PASSWORD_REQUIRED`).
pub open spec fn zip_password_required_text() -> Seq<char> {
    "Password required to decrypt file"@
}

/// Reads `ZipError::PASSWORD_REQUIRED`, whose source gives the text
/// `zip_password_required_text`.
#[verifier::external_body]
fn password_required_text() -> (r: String)
    ensures
        r@ == zip_password_required_text(),
{
    zip::result::ZipError::PASSWORD_REQUIRED.to_string()
}

/// Whether the detail of a ZIP error (that of an `UnsupportedArchive`, `None` for the
/// other variants) says that a password is needed: it is `ZipError::PASSWORD_REQUIRED`.
pub fn detail_requires_password(detail: Option<String>) -> (r: bool)
    ensures
        r == (crate::path_utils::opt_chars(detail) == Some(zip_password_required_text())),
{
    match detail {
        Some(d) => d == password_required_text(),
        None => false,
    }
}

/// Whether a ZIP error says that a password is needed: an `UnsupportedArchive` whose
/// detail is `ZipError::PASSWORD_REQUIRED`.
pub fn is_password_required_error(e: &zip::result::ZipError) -> (r: bool)
    ensures
        r == (zip_unsupported_detail(*e) == Some(zip_password_required_text())),
{
    detail_requires_password(unsupported_detail(e))
}

// ---------------------------------------------------------------------------
// Entries
// ---------------------------------------------------------------------------

/// The entry name with every `\` turned into `/`.
pub open spec fn forward_slashes(name: Seq<char>) -> Seq<char> {
    name.map_values(|c: char| if c == '\\' { '/' } else { c })
}

/// Whether `c` is an ASCII letter.
pub open spec fn is_ascii_letter(c: char) -> bool {
    ('a' <= c && c <= 'z') || ('A' <= c && c <= 'Z')
}

/// Whether a path (with `/` separators) is rooted: it starts with `/`, or with a drive
/// prefix (a letter and `:`), so that joining it onto the destination would leave it.
pub open spec fn is_rooted(p: Seq<char>) -> bool {
    (p.len() > 0 && p[0] == '/') || (p.len() >= 2 && p[1] == ':' && is_ascii_letter(p[0]))
}

/// The path under the destination at which an entry named `name` is written: its name
/// with `/` separators, or `None` when it holds `..` or is rooted, and could leave the
/// destination.
pub open spec fn safe_entry_path(name: Seq<char>) -> Option<Seq<char>> {
    if contains_seq(forward_slashes(name), ".."@) || is_rooted(forward_slashes(name)) {
        None
    } else {
        Some(forward_slashes(name))
    }
}

/// A path kept by `safe_entry_path` is relative and cannot climb out of the
/// destination: it is not rooted, holds no `..` and, `\` having been turned into `/`,
/// no `\` either.
pub proof fn lemma_safe_entry_path_stays_inside(name: Seq<char>)
    ensures
        safe_entry_path(name) matches Some(p) ==> !contains_seq(p, ".."@) && !is_rooted(p)
            && forall|i: int| 0 <= i < p.len() ==> p[i] != '\\',
{
    if let Some(p) = safe_entry_path(name) {
        assert forall|i: int| 0 <= i < p.len() implies p[i] != '\\' by {
            assert(p[i] == forward_slashes(name)[i]);
        }
    }
}

/// An entry is kept, at its name with each `\\` read as `/`, exactly when that path
/// holds no `..`, does not start with `/` and does not start with a drive prefix (a
/// letter and `:`); only such entries are left out. Hidden files and folders (`.gitignore`,
/// `.github/`), names with a colon further on, and every other name are kept.
pub proof fn lemma_entry_kept_unless_it_could_escape(name: Seq<char>)
    ensures
        ({
            let p = name.map_values(|c: char| if c == '\\' { '/' } else { c });
            let climbs = exists|i: int| 0 <= i && i + 1 < p.len() && #[trigger] p[i] == '.' && p[i + 1] == '.';
            let rooted = (p.len() > 0 && p[0] == '/') || (p.len() >= 2 && p[1] == ':' && (('a' <= p[0]
                && p[0] <= 'z') || ('A' <= p[0] && p[0] <= 'Z')));
            safe_entry_path(name) == if climbs || rooted {
                None
            } else {
                Some(p)
            }
        }),
{
    reveal_strlit("..");
    let p = name.map_values(|c: char| if c == '\\' { '/' } else { c });
    assert(p == forward_slashes(name));
    let climbs = exists|i: int| 0 <= i && i + 1 < p.len() && #[trigger] p[i] == '.' && p[i + 1] == '.';
    if contains_seq(p, ".."@) {
        let i = choose|i: int| occurs_at(p, ".."@, i);
        assert(p.subrange(i, i + 2)[0] == p[i]);
        assert(p.subrange(i, i + 2)[1] == p[i + 1]);
        assert(p[i] == '.' && p[i + 1] == '.');
    }
    if climbs {
        let i = choose|i: int| 0 <= i && i + 1 < p.len() && #[trigger] p[i] == '.' && p[i + 1] == '.';
        assert(p.subrange(i, i + 2) =~= ".."@);
        assert(occurs_at(p, ".."@, i));
    }
}

/// Whether a path (with `/` separators) is rooted (see `is_rooted`).
pub fn rooted(p: &Vec<char>) -> (r: bool)
    ensures
        r == is_rooted(p@),
{
    if p.len() > 0 && p[0] == '/' {
        return true;
    }
    if p.len() >= 2 && p[1] == ':' {
        let c = p[0];
        return ('a' <= c && c <= 'z') || ('A' <= c && c <= 'Z');
    }
    false
}

/// The entry name with every `\` turned into `/` (`str::replace`).
pub fn to_forward_slashes(name: &str) -> (r: Vec<char>)
    ensures
        r@ == forward_slashes(name@),
{
    let v = chars_of(name);
    let mut r: Vec<char> = Vec::new();
    let mut i: usize = 0;
    while i < v.len()
        invariant
            i <= v.len(),
            v@ == name@,
            r@ == forward_slashes(v@.take(i as int)),
        decreases v.len() - i,
    {
        let c = v[i];
        if c == '\\' {
            r.push('/');
        } else {
            r.push(c);
        }
        i = i + 1;
        assert(r@ =~= forward_slashes(v@.take(i as int)));
    }
    assert(v@.take(v.len() as int) =~= v@);
    r
}

/// What reading one entry of a ZIP archive gave.
#[derive(Debug)]
pub enum ZipEntryRead {
    /// The entry, with its name as stored and whether it is a directory.
    Entry { name: String, is_dir: bool },
    /// The entry could not be read; `password_required` says whether the error is
    /// `is_password_required_error`, `reason` is its text.
    Failed { password_required: bool, reason: String },
}

/// What to do with one entry of a ZIP archive.
#[derive(Debug)]
pub enum ZipEntryAction {
    /// Stop the extraction with this error.
    Stop(ExtractError),
    /// Leave out an entry whose path could escape the destination.
    SkipUnsafe(String),
    /// Create this directory under the destination.
    CreateDir(String),
    /// Write the entry's contents to this path under the destination.
    WriteFile(String),
}

/// The reason given when entry `index` cannot be read.
pub open spec fn entry_read_failure(index: nat, reason: Seq<char>) -> Seq<char> {
    "读取 ZIP 条目 #"@ + decimal(index) + " 失败: "@ + reason
}

/// Whether `a` is what `zip_entry_action` decides for entry `index`, given what reading
/// it gave (see there).
pub open spec fn is_entry_action(index: nat, read: ZipEntryRead, a: ZipEntryAction) -> bool {
    match read {
        ZipEntryRead::Failed { password_required, reason } => if password_required {
            a == ZipEntryAction::Stop(ExtractError::PasswordRequired)
        } else {
            a matches ZipEntryAction::Stop(ExtractError::ExtractFailed(m))
                && m@ == entry_read_failure(index, reason@)
        },
        ZipEntryRead::Entry { name, is_dir } => match safe_entry_path(name@) {
            None => a matches ZipEntryAction::SkipUnsafe(p) && p@ == forward_slashes(name@),
            Some(path) => if is_dir {
                a matches ZipEntryAction::CreateDir(p) && p@ == path
            } else {
                a matches ZipEntryAction::WriteFile(p) && p@ == path
            },
        },
    }
}

/// What to do with entry `index` of a ZIP archive, given what reading it gave.
///
/// An entry that needs a password stops the extraction with `PasswordRequired`; one that
/// cannot be read for another reason stops it with `ExtractFailed`. An entry whose name
/// (with `\` read as `/`) holds `..`, starts with `/` or with a drive prefix is left out:
/// every path in `CreateDir` or `WriteFile` is relative, and free of `..` and of `\`.
pub fn zip_entry_action(index: usize, read: ZipEntryRead) -> (r: ZipEntryAction)
    ensures
        is_entry_action(index as nat, read, r),
        r matches ZipEntryAction::CreateDir(p) ==> !contains_seq(p@, ".."@) && !is_rooted(p@)
            && forall|i: int| 0 <= i < p@.len() ==> p@[i] != '\\',
        r matches ZipEntryAction::WriteFile(p) ==> !contains_seq(p@, ".."@) && !is_rooted(p@)
            && forall|i: int| 0 <= i < p@.len() ==> p@[i] != '\\',
        (read matches ZipEntryRead::Entry { name, is_dir } ==> ({
            let p = name@.map_values(|c: char| if c == '\\' { '/' } else { c });
            let climbs = exists|i: int| 0 <= i && i + 1 < p.len() && #[trigger] p[i] == '.' && p[i + 1] == '.';
            let rooted = (p.len() > 0 && p[0] == '/') || (p.len() >= 2 && p[1] == ':' && (('a' <= p[0]
                && p[0] <= 'z') || ('A' <= p[0] && p[0] <= 'Z')));
            if climbs || rooted {
                r matches ZipEntryAction::SkipUnsafe(q) && q@ == p
            } else if is_dir {
                r matches ZipEntryAction::CreateDir(q) && q@ == p
            } else {
                r matches ZipEntryAction::WriteFile(q) && q@ == p
            }
        })),
{

    match read {
        ZipEntryRead::Failed { password_required, reason } => {
            if password_required {
                ZipEntryAction::Stop(ExtractError::PasswordRequired)
            } else {
                let mut m = chars_of("读取 ZIP 条目 #");
                let d = decimal_chars(index as u64);
                extend_chars(&mut m, &d);
                let tail = chars_of(" 失败: ");
                extend_chars(&mut m, &tail);
                let rs = chars_of(reason.as_str());
                extend_chars(&mut m, &rs);
                ZipEntryAction::Stop(ExtractError::ExtractFailed(string_of(&m)))
            }
        },
        ZipEntryRead::Entry { name, is_dir } => {
            proof {
                lemma_entry_kept_unless_it_could_escape(name@);
            }
            let path = to_forward_slashes(name.as_str());
            let dots = chars_of("..");
            let p = string_of(&path);
            assert forall|i: int| 0 <= i < path@.len() implies path@[i] != '\\' by {
                assert(path@[i] == forward_slashes(name@)[i]);
            }
            if contains_chars(&path, &dots) || rooted(&path) {
                ZipEntryAction::SkipUnsafe(p)
            } else if is_dir {
                ZipEntryAction::CreateDir(p)
            } else {
                ZipEntryAction::WriteFile(p)
            }
        },
    }
}

/// Whether the check beforehand stops an archive: no password was given and its first
/// entry needs one.
pub open spec fn stops_for_password(password_given: bool, first: ZipEntryRead) -> bool {
    !password_given && (first matches ZipEntryRead::Failed { password_required, .. } && password_required)
}

/// Before the entries are read: without a password, an archive whose first entry
/// needs one stops at once with `PasswordRequired`.
pub fn zip_precheck(password_given: bool, first: &ZipEntryRead) -> (r: Option<ExtractError>)
    ensures
        r == if stops_for_password(password_given, *first) {
            Some(ExtractError::PasswordRequired)
        } else {
            None
        },
{
    if password_given {
        return None;
    }
    match first {
        ZipEntryRead::Failed { password_required, .. } => if *password_required {
            Some(ExtractError::PasswordRequired)
        } else {
            None
        },
        ZipEntryRead::Entry { .. } => None,
    }
}

/// The error when a ZIP archive cannot be opened, with the reason.
pub fn zip_open_failure(reason: &str) -> (r: ExtractError)
    ensures
        r matches ExtractError::ExtractFailed(m) && m@ == "无法打开 ZIP 文件: "@ + reason@,
{
    ExtractError::failed("无法打开 ZIP 文件: ", reason)
}

// ---------------------------------------------------------------------------
// The extraction of a whole archive
// ---------------------------------------------------------------------------

/// What the program does next while extracting a ZIP archive.
#[derive(Debug)]
pub enum ZipStep {
    /// Read entry `index`, with the password if `with_password`.
    ReadEntry { index: usize, with_password: bool },
    /// Carry out this action for the entry just read (never `Stop`).
    Apply(ZipEntryAction),
    /// The extraction is over, with this result.
    Finish(Result<(), ExtractError>),
}

/// The extraction of a ZIP archive with `entry_count` entries, entry after entry.
pub struct ZipExtraction {
    /// Whether a password was given.
    pub password_given: bool,
    /// How many entries the archive has.
    pub entry_count: usize,
    /// The entry being read or applied.
    pub next: usize,
    /// Whether the first entry is being read only to see if it needs a password.
    pub prechecking: bool,
    /// Whether an action for entry `next` is being carried out.
    pub applying: bool,
    /// Whether the extraction is over.
    pub done: bool,
}

impl ZipExtraction {
    /// The fields agree with each other.
    pub open spec fn well_formed(&self) -> bool {
        &&& !self.done ==> self.next < self.entry_count
        &&& self.next <= self.entry_count
        &&& self.prechecking ==> !self.password_given && self.next == 0 && !self.applying
        &&& self.done ==> !self.prechecking && !self.applying
    }

    /// The step that reads entry `next` in the loop over all entries.
    pub open spec fn reads_next(&self, step: ZipStep) -> bool {
        step == (ZipStep::ReadEntry { index: self.next, with_password: self.password_given })
    }

    /// Starts the extraction of an archive that opened with `entry_count` entries.
    /// Without a password, the first entry is read once beforehand, to stop at once if
    /// it needs one. An archive without entries ends at once, successfully.
    pub fn new(password_given: bool, entry_count: usize) -> (r: (ZipExtraction, ZipStep))
        ensures
            r.0.well_formed(),
            r.0.password_given == password_given,
            r.0.entry_count == entry_count,
            r.0.next == 0,
            !r.0.applying,
            entry_count == 0 ==> r.0.done && r.1 == ZipStep::Finish(Ok(())),
            entry_count > 0 && !password_given ==> r.0.prechecking && !r.0.done
                && r.1 == (ZipStep::ReadEntry { index: 0, with_password: false }),
            entry_count > 0 && password_given ==> !r.0.prechecking && !r.0.done && r.0.reads_next(r.1),
    {
        if entry_count == 0 {
            let z = ZipExtraction { password_given, entry_count, next: 0, prechecking: false, applying: false, done: true };
            (z, ZipStep::Finish(Ok(())))
        } else if !password_given {
            let z = ZipExtraction { password_given, entry_count, next: 0, prechecking: true, applying: false, done: false };
            (z, ZipStep::ReadEntry { index: 0, with_password: false })
        } else {
            let z = ZipExtraction { password_given, entry_count, next: 0, prechecking: false, applying: false, done: false };
            (z, ZipStep::ReadEntry { index: 0, with_password: true })
        }
    }

    /// What follows the reading of an entry.
    ///
    /// In the check beforehand, an entry that needs a password ends the extraction with
    /// `PasswordRequired`; else the loop starts at entry 0. In the loop, what
    /// `zip_entry_action` decides for the entry is either the end (`Stop`) or the action to
    /// carry out.
    pub fn on_read(&mut self, read: ZipEntryRead) -> (r: ZipStep)
        requires
            old(self).well_formed(),
            !old(self).done,
            !old(self).applying,
        ensures
            final(self).well_formed(),
            final(self).password_given == old(self).password_given,
            final(self).entry_count == old(self).entry_count,
            final(self).next == old(self).next,
            r is Finish <==> final(self).done,
            r is Apply <==> final(self).applying,
            !final(self).prechecking,
            old(self).prechecking ==> if stops_for_password(old(self).password_given, read) {
                r == ZipStep::Finish(Err(ExtractError::PasswordRequired))
            } else {
                !final(self).prechecking && final(self).reads_next(r)
            },
            !old(self).prechecking ==> match r {
                ZipStep::Finish(Err(e)) => is_entry_action(old(self).next as nat, read, ZipEntryAction::Stop(e)),
                ZipStep::Apply(a) => final(self).applying && !(a is Stop) && is_entry_action(old(self).next as nat, read, a),
                _ => false,
            },
    {
        if self.prechecking {
            match zip_precheck(self.password_given, &read) {
                Some(e) => {
                    self.prechecking = false;
                    self.done = true;
                    ZipStep::Finish(Err(e))
                },
                None => {
                    self.prechecking = false;
                    ZipStep::ReadEntry { index: self.next, with_password: self.password_given }
                },
            }
        } else {
            match zip_entry_action(self.next, read) {
                ZipEntryAction::Stop(e) => {
                    self.done = true;
                    ZipStep::Finish(Err(e))
                },
                a => {
                    self.applying = true;
                    ZipStep::Apply(a)
                },
            }
        }
    }

    /// The action for the current entry was carried out (whether or not it could be):
    /// the next entry is read, or, after the last, the extraction ends successfully.
    pub fn on_applied(&mut self) -> (r: ZipStep)
        requires
            old(self).well_formed(),
            old(self).applying,
        ensures
            final(self).well_formed(),
            final(self).password_given == old(self).password_given,
            final(self).entry_count == old(self).entry_count,
            !final(self).applying,
            !final(self).prechecking,
            final(self).next == old(self).next + 1 || final(self).next == old(self).entry_count,
            old(self).next + 1 < old(self).entry_count ==> !final(self).done && final(self).next == old(self).next + 1
                && final(self).reads_next(r),
            old(self).next + 1 == old(self).entry_count ==> final(self).done && r == ZipStep::Finish(Ok(())),
    {
        self.applying = false;
        if self.next + 1 < self.entry_count {
            self.next = self.next + 1;
            ZipStep::ReadEntry { index: self.next, with_password: self.password_given }
        } else {
            self.next = self.entry_count;
            self.done = true;
            ZipStep::Finish(Ok(()))
        }
    }
}

} // verus!
