//! Decisions of an extraction: where the contents are staged, and what happens to them
//! once the archive has been unpacked.

use vstd::prelude::*;

use crate::path_utils::{path_exists, path_join, std_path_join};
use crate::text::{decimal, decimal_chars, extend_chars, chars_of, string_of};
use crate::formats::{format_of_mime, infer_mime, is_archive_header, sniff, ArchiveFormat};
use crate::ExtractError;

verus! {

/// The `k`-th name tried for the staging folder: `.ae_staging`, then `.ae_staging_1`,
/// `.ae_staging_2`, ...
pub open spec fn staging_name(k: nat) -> Seq<char> {
    if k == 0 {
        ".ae_staging"@
    } else {
        ".ae_staging_"@ + decimal(k)
    }
}

/// Distinct numbers give distinct staging folder names: `staging_dir` never tries a name
/// twice.
pub proof fn lemma_staging_names_distinct(j: nat, k: nat)
    requires
        j != k,
    ensures
        staging_name(j) != staging_name(k),
{
    reveal_strlit(".ae_staging");
    reveal_strlit(".ae_staging_");
    crate::text::lemma_decimal_len(j);
    crate::text::lemma_decimal_len(k);
    let a = staging_name(j);
    let b = staging_name(k);
    if a == b {
        if j > 0 && k > 0 {
            assert(a.subrange(12, a.len() as int) =~= decimal(j));
            assert(b.subrange(12, b.len() as int) =~= decimal(k));
            crate::text::lemma_decimal_injective(j, k);
        } else {
            assert(a.len() != b.len());
        }
    }
}

/// The `k`-th staging folder name (see `staging_name`).
pub fn staging_name_chars(k: u32) -> (r: Vec<char>)
    ensures
        r@ == staging_name(k as nat),
{
    if k == 0 {
        chars_of(".ae_staging")
    } else {
        let mut v = chars_of(".ae_staging_");
        let d = decimal_chars(k as u64);
        extend_chars(&mut v, &d);
        v
    }
}

/// The `k`-th staging folder tried inside `dest`.
pub open spec fn staging_candidate(dest: Seq<char>, k: nat) -> Seq<char> {
    std_path_join(dest, staging_name(k))
}

/// A probe answered, for the path written `p`, that something exists there.
pub open spec fn reported_present<F: Fn(String) -> bool>(probe: F, p: Seq<char>) -> bool {
    exists|x: String| x@ == p && #[trigger] probe.ensures((x,), true)
}

/// A probe answered, for the path written `p`, that nothing exists there.
pub open spec fn reported_absent<F: Fn(String) -> bool>(probe: F, p: Seq<char>) -> bool {
    exists|x: String| x@ == p && #[trigger] probe.ensures((x,), false)
}

/// Whether something exists at the path written `p` (`Path::exists`). The answer depends
/// on the disk at the moment of the call, so nothing is stated of it; `staging_dir`
/// states its choice over what this function answered.
pub fn path_present(p: String) -> bool {
    path_exists(p.as_str())
}

/// The `k`-th staging folder inside `dest`, if the file system answered (`present`)
/// that nothing exists there.
pub fn staging_probe(dest: &str, k: u32, present: bool) -> (r: Option<String>)
    ensures
        r is Some <==> !present,
        r matches Some(s) ==> s@ == staging_candidate(dest@, k as nat),
{
    if present {
        None
    } else {
        Some(path_join(dest, &string_of(&staging_name_chars(k))))
    }
}

/// The first staging folder inside `dest` that `probe` reports absent, trying
/// `staging_candidate` 0, 1, 2, ... in turn (the last one when every number up to
/// `u32::MAX` is reported present). `probe` answers whether something exists at a path.
pub fn first_free_staging<F: Fn(String) -> bool>(dest: &str, probe: F) -> (r: String)
    requires
        forall|x: String| #[trigger] probe.requires((x,)),
    ensures
        exists|k: nat|
            k <= u32::MAX && r@ == staging_candidate(dest@, k)
                && (forall|j: nat| j < k ==> #[trigger] reported_present(probe, staging_candidate(dest@, j)))
                && (k < u32::MAX ==> reported_absent(probe, staging_candidate(dest@, k))),
{
    let mut k: u32 = 0;
    loop
        invariant
            k <= u32::MAX,
            forall|x: String| #[trigger] probe.requires((x,)),
            forall|j: nat| j < k ==> #[trigger] reported_present(probe, staging_candidate(dest@, j)),
        decreases u32::MAX - k,
    {
        let candidate = path_join(dest, &string_of(&staging_name_chars(k)));
        let asked = candidate.clone();
        let present = probe(asked);
        match staging_probe(dest, k, present) {
            Some(free) => {
                assert(reported_absent(probe, staging_candidate(dest@, k as nat)));
                return free;
            },
            None => {
                assert(reported_present(probe, staging_candidate(dest@, k as nat)));
                if k == u32::MAX {
                    return candidate;
                }
                k = k + 1;
            },
        }
    }
}

/// A folder inside `dest` in which an archive is unpacked before its contents are moved
/// into `dest`: the first of `.ae_staging`, `.ae_staging_1`, ... at which `path_present`
/// reported nothing, every earlier one having been reported present (the last candidate
/// is returned when every number up to `u32::MAX` is taken).
pub fn staging_dir(dest: &str) -> (r: String)
    ensures
        exists|k: nat|
            k <= u32::MAX && r@ == staging_candidate(dest@, k)
                && (forall|j: nat| j < k ==> #[trigger] reported_present(path_present, staging_candidate(dest@, j)))
                && (k < u32::MAX ==> reported_absent(path_present, staging_candidate(dest@, k))),
{
    first_free_staging(dest, path_present)
}

/// What becomes of the staged contents once the archive has been unpacked.
#[derive(Debug)]
pub enum Settlement {
    /// Move the staged contents into the destination, then end with `then` (or with
    /// `transfer_failure` if the move fails).
    Keep { then: Result<(), ExtractError> },
    /// Remove the staging folder and end with this error.
    Discard(ExtractError),
}

/// What becomes of the staged contents, given how unpacking ended. A success keeps them
/// and ends well. An archive that stopped for want of a password keeps what it had
/// unpacked before (its unencrypted entries) and still reports `PasswordRequired`. Any
/// other failure discards them and reports the failure.
pub fn settle(unpacked: Result<(), ExtractError>) -> (r: Settlement)
    ensures
        match unpacked {
            Ok(()) => r == Settlement::Keep { then: Ok(()) },
            Err(ExtractError::PasswordRequired) => r == Settlement::Keep {
                then: Err(ExtractError::PasswordRequired),
            },
            Err(e) => r == Settlement::Discard(e),
        },
{
    match unpacked {
        Ok(()) => Settlement::Keep { then: Ok(()) },
        Err(ExtractError::PasswordRequired) => Settlement::Keep {
            then: Err(ExtractError::PasswordRequired),
        },
        Err(e) => Settlement::Discard(e),
    }
}

/// The error when the destination folder cannot be created, with the reason.
pub fn dest_create_failure(reason: &str) -> (r: ExtractError)
    ensures
        r matches ExtractError::ExtractFailed(m) && m@ == "创建目标目录失败: "@ + reason@,
{
    ExtractError::failed("创建目标目录失败: ", reason)
}

/// The error when the staging folder cannot be created, with the reason.
pub fn staging_create_failure(reason: &str) -> (r: ExtractError)
    ensures
        r matches ExtractError::ExtractFailed(m) && m@ == "创建暂存目录失败: "@ + reason@,
{
    ExtractError::failed("创建暂存目录失败: ", reason)
}

/// The error when the staged contents cannot be moved into the destination.
pub fn transfer_failure(reason: &str) -> (r: ExtractError)
    ensures
        r matches ExtractError::ExtractFailed(m) && m@ == "迁移文件时出错: "@ + reason@,
{
    ExtractError::failed("迁移文件时出错: ", reason)
}

// ---------------------------------------------------------------------------
// The extraction of one archive into a folder
// ---------------------------------------------------------------------------

/// Where an extraction into a folder stands.
#[derive(Debug, PartialEq, Eq, Structural)]
pub enum JobStage {
    /// The first bytes of the file are being read, to recognise its type.
    ReadingHeader,
    /// The destination folder is being created.
    CreatingDest,
    /// The staging folder is being created.
    CreatingStaging,
    /// The archive is being unpacked into the staging folder.
    Unpacking,
    /// The staged contents are being moved into the destination.
    Transferring,
    /// The staging folder is being removed.
    Cleaning,
    /// The extraction is over.
    Finished,
}

/// What the program does next for an extraction.
#[derive(Debug)]
pub enum JobAction {
    /// Read the first bytes of the file (at most `HEADER_SIZE` of them).
    ReadHeader,
    /// The file is not an archive this library extracts: nothing was created for it, and
    /// the extraction is over with success. `mime` is the type recognised, if any.
    Skip { mime: Option<String> },
    /// Create this folder (and its parents).
    CreateDir(String),
    /// Unpack the archive, of this format, into the folder `staging`.
    Unpack { staging: String, format: ArchiveFormat },
    /// Move everything under this folder into the destination, renaming colliding files.
    Transfer(String),
    /// Remove this folder and what it holds; a failure to do so is ignored.
    RemoveDir(String),
    /// The extraction is over, with this result.
    Finish(Result<(), ExtractError>),
}

/// How the last action went.
#[derive(Debug)]
pub enum JobEvent {
    /// A folder action (create, transfer, remove) succeeded.
    Succeeded,
    /// An action other than unpacking failed, for this reason.
    Failed(String),
    /// The first bytes of the file, as read.
    Header(Vec<u8>),
    /// Unpacking ended with this result.
    Unpacked(Result<(), ExtractError>),
}

/// The extraction of one archive into the folder `dest`, through a staging folder.
pub struct ExtractJob {
    /// The destination folder.
    pub dest: String,
    /// The archive format, once recognised.
    pub format: Option<ArchiveFormat>,
    /// The staging folder, once chosen.
    pub staging: Option<String>,
    /// Where the extraction stands.
    pub stage: JobStage,
    /// The result to report once the staging folder is removed.
    pub pending: Option<Result<(), ExtractError>>,
    /// Whether a staging folder was created that has not been given to `RemoveDir` yet.
    pub cleanup_owed: Ghost<bool>,
}

/// Whether an event can answer the action of a stage: reading the header is answered by
/// the bytes read or a failure, unpacking by its result, every other action by success
/// or failure.
pub open spec fn event_fits(stage: JobStage, event: JobEvent) -> bool {
    match stage {
        JobStage::ReadingHeader => event is Header || event is Failed,
        JobStage::Unpacking => event is Unpacked,
        JobStage::Finished => false,
        _ => event is Succeeded || event is Failed,
    }
}

impl ExtractJob {
    /// The fields agree with the stage.
    pub open spec fn well_formed(&self) -> bool {
        &&& (self.stage == JobStage::ReadingHeader) ==> self.format is None && self.staging is None
        &&& (self.stage == JobStage::ReadingHeader || self.stage == JobStage::CreatingDest
            || self.stage == JobStage::CreatingStaging) ==> !self.cleanup_owed@
        &&& (self.stage != JobStage::ReadingHeader && self.stage != JobStage::Finished) ==> (
            self.format matches Some(f) && f != ArchiveFormat::Unsupported)
        &&& (self.stage == JobStage::CreatingStaging || self.stage == JobStage::Unpacking
            || self.stage == JobStage::Transferring || self.stage == JobStage::Cleaning) ==> self.staging is Some
        &&& (self.stage == JobStage::Unpacking || self.stage == JobStage::Transferring) ==> self.cleanup_owed@
        &&& self.stage == JobStage::Cleaning ==> self.pending is Some && !self.cleanup_owed@
        &&& self.stage == JobStage::Transferring ==> self.pending is Some
        &&& self.stage == JobStage::Finished ==> !self.cleanup_owed@
    }

    /// An extraction of a file into `dest`; its first action reads the file's first
    /// bytes, so that nothing is created before the file is known to be an archive.
    pub fn new(dest: &str) -> (r: (ExtractJob, JobAction))
        ensures
            r.0.well_formed(),
            r.0.dest@ == dest@,
            r.0.stage == JobStage::ReadingHeader,
            r.1 is ReadHeader,
    {
        let job = ExtractJob {
            dest: String::from_str(dest),
            format: None,
            staging: None,
            stage: JobStage::ReadingHeader,
            pending: None,
            cleanup_owed: Ghost(false),
        };
        (job, JobAction::ReadHeader)
    }

    /// The next action, given how the last one went.
    ///
    /// The file's type is recognised from its first bytes (see `sniff`): a file that is
    /// not an archive this library extracts is skipped, with nothing created. For an
    /// archive, the destination is created; a staging folder is chosen inside it (see
    /// `staging_dir`) and created; the archive is unpacked into it; what `settle` keeps
    /// is moved into the destination; the staging folder is then removed, whatever
    /// happened, and the extraction ends. A file that cannot be read is passed over like a
    /// file that is no archive: the extraction ends at once, successfully, with nothing
    /// created (the program reports the reason). Failing to create the destination or the
    /// staging folder ends it at once, with nothing to remove;
    /// failing to move the staged contents reports `transfer_failure`. The staging
    /// folder, once chosen, never changes, and every folder handed to `Unpack`,
    /// `Transfer` and `RemoveDir` is that folder. The extraction never ends while a
    /// staging folder it created is still to be removed.
    pub fn step(&mut self, event: JobEvent) -> (r: JobAction)
        requires
            old(self).well_formed(),
            event_fits(old(self).stage, event),
        ensures
            final(self).well_formed(),
            final(self).dest == old(self).dest,
            old(self).stage != JobStage::ReadingHeader ==> final(self).format == old(self).format,
            old(self).stage != JobStage::CreatingDest ==> final(self).staging == old(self).staging,
            (r is Finish || r is Skip) <==> final(self).stage == JobStage::Finished,
            r is Finish ==> !final(self).cleanup_owed@,
            r is Skip ==> old(self).stage == JobStage::ReadingHeader,
            r is CreateDir ==> (final(self).format matches Some(f) && f != ArchiveFormat::Unsupported),
            old(self).stage == JobStage::ReadingHeader && r is CreateDir ==> (event matches JobEvent::Header(h)
                && is_archive_header(h@)),
            r matches JobAction::Unpack { staging, format } ==> old(self).staging == Some(staging)
                && old(self).format == Some(format),
            r matches JobAction::Transfer(d) ==> old(self).staging == Some(d),
            r matches JobAction::RemoveDir(d) ==> old(self).staging == Some(d),
            match (old(self).stage, event) {
                (JobStage::ReadingHeader, JobEvent::Failed(_)) => r == JobAction::Finish(Ok(())),
                (JobStage::ReadingHeader, JobEvent::Header(h)) => match infer_mime(h@) {
                    None => r matches JobAction::Skip { mime: None },
                    Some(m) => if format_of_mime(m) == ArchiveFormat::Unsupported {
                        r matches JobAction::Skip { mime: Some(t) } && t@ == m
                    } else {
                        final(self).stage == JobStage::CreatingDest
                            && final(self).format == Some(format_of_mime(m))
                            && (r matches JobAction::CreateDir(d) && d == old(self).dest)
                    },
                },
                (JobStage::CreatingDest, JobEvent::Failed(m)) => r matches JobAction::Finish(Err(ExtractError::ExtractFailed(t)))
                    && t@ == "创建目标目录失败: "@ + m@,
                (JobStage::CreatingDest, _) => final(self).stage == JobStage::CreatingStaging
                    && (exists|k: nat|
                        k <= u32::MAX && final(self).staging->0@ == staging_candidate(old(self).dest@, k)
                            && (forall|j: nat| j < k ==> #[trigger] reported_present(path_present, staging_candidate(old(self).dest@, j)))
                            && (k < u32::MAX ==> reported_absent(path_present, staging_candidate(old(self).dest@, k))))
                    && (r matches JobAction::CreateDir(d) && final(self).staging == Some(d)),
                (JobStage::CreatingStaging, JobEvent::Failed(m)) => r matches JobAction::Finish(Err(ExtractError::ExtractFailed(t)))
                    && t@ == "创建暂存目录失败: "@ + m@,
                (JobStage::CreatingStaging, _) => final(self).stage == JobStage::Unpacking && r is Unpack,
                (JobStage::Unpacking, JobEvent::Unpacked(res)) => match res {
                    Ok(()) => final(self).stage == JobStage::Transferring && final(self).pending == Some(Ok::<(), ExtractError>(()))
                        && r is Transfer,
                    Err(ExtractError::PasswordRequired) => final(self).stage == JobStage::Transferring
                        && final(self).pending == Some(Err::<(), ExtractError>(ExtractError::PasswordRequired))
                        && r is Transfer,
                    Err(e) => final(self).stage == JobStage::Cleaning && final(self).pending == Some(Err::<(), ExtractError>(e))
                        && r is RemoveDir,
                },
                (JobStage::Transferring, JobEvent::Failed(m)) => final(self).stage == JobStage::Cleaning
                    && (final(self).pending matches Some(Err(ExtractError::ExtractFailed(t))) && t@ == "迁移文件时出错: "@ + m@)
                    && r is RemoveDir,
                (JobStage::Transferring, _) => final(self).stage == JobStage::Cleaning
                    && final(self).pending == old(self).pending
                    && r is RemoveDir,
                (JobStage::Cleaning, _) => Some(r->Finish_0) == old(self).pending && r is Finish,
                _ => true,
            },
    {
        match self.stage {
            JobStage::ReadingHeader => match event {
                JobEvent::Header(h) => match sniff(h.as_slice()) {
                    None => {
                        self.stage = JobStage::Finished;
                        JobAction::Skip { mime: None }
                    },
                    Some(kind) => {
                        if kind.format == ArchiveFormat::Unsupported {
                            self.stage = JobStage::Finished;
                            JobAction::Skip { mime: Some(kind.mime) }
                        } else {
                            self.format = Some(kind.format);
                            self.stage = JobStage::CreatingDest;
                            JobAction::CreateDir(self.dest.clone())
                        }
                    },
                },
                JobEvent::Failed(_) => {
                    self.stage = JobStage::Finished;
                    JobAction::Finish(Ok(()))
                },
                _ => {
                    self.stage = JobStage::Finished;
                    JobAction::Finish(Ok(()))
                },
            },
            JobStage::CreatingDest => match event {
                JobEvent::Failed(m) => {
                    self.stage = JobStage::Finished;
                    JobAction::Finish(Err(dest_create_failure(m.as_str())))
                },
                _ => {
                    let staging = staging_dir(self.dest.as_str());
                    self.staging = Some(staging.clone());
                    self.stage = JobStage::CreatingStaging;
                    JobAction::CreateDir(staging)
                },
            },
            JobStage::CreatingStaging => match event {
                JobEvent::Failed(m) => {
                    self.stage = JobStage::Finished;
                    JobAction::Finish(Err(staging_create_failure(m.as_str())))
                },
                _ => {
                    self.stage = JobStage::Unpacking;
                    self.cleanup_owed = Ghost(true);
                    JobAction::Unpack { staging: self.staging.clone().unwrap(), format: self.format.unwrap() }
                },
            },
            JobStage::Unpacking => match event {
                JobEvent::Unpacked(res) => match settle(res) {
                    Settlement::Keep { then } => {
                        self.pending = Some(then);
                        self.stage = JobStage::Transferring;
                        JobAction::Transfer(self.staging.clone().unwrap())
                    },
                    Settlement::Discard(e) => {
                        self.pending = Some(Err(e));
                        self.stage = JobStage::Cleaning;
                        self.cleanup_owed = Ghost(false);
                        JobAction::RemoveDir(self.staging.clone().unwrap())
                    },
                },
                _ => {
                    self.stage = JobStage::Finished;
                    self.cleanup_owed = Ghost(false);
                    JobAction::Finish(Ok(()))
                },
            },
            JobStage::Transferring => {
                if let JobEvent::Failed(m) = event {
                    self.pending = Some(Err(transfer_failure(m.as_str())));
                }
                self.stage = JobStage::Cleaning;
                self.cleanup_owed = Ghost(false);
                JobAction::RemoveDir(self.staging.clone().unwrap())
            },
            JobStage::Cleaning => {
                self.stage = JobStage::Finished;
                let result = self.pending.take().unwrap();
                self.pending = None;
                JobAction::Finish(result)
            },
            JobStage::Finished => JobAction::Finish(Ok(())),
        }
    }
}

} // verus!
