//! The state of the graphical front end and of its extraction worker, and how each
//! message and command changes it.

use vstd::prelude::*;

use crate::text::{chars_of, decimal, push_str, string_of, trim_chars, trimmed, usize_chars, extend_chars};
use crate::ExtractError;

verus! {

/// Messages from the extraction worker to the window.
#[derive(Debug)]
pub enum WorkerMessage {
    /// Archive `current` of `total` is being extracted.
    Progress { current: usize, total: usize },
    /// The run is over, with its result.
    Finished(Result<(), ExtractError>),
    /// A line for the log.
    Log(String),
    /// Archive `current` of `total`, at `file_path`, needs a password; `is_wrong_password`
    /// says whether a password was already tried on it.
    PasswordRequired { file_path: String, current: usize, total: usize, is_wrong_password: bool },
}

/// Commands from the window to the extraction worker.
#[derive(Debug)]
pub enum WorkerCommand {
    /// Extract the archive (or every archive under the folder) at `path`.
    Extract { path: String, flat: bool },
    /// The password that the user typed for the archive waiting for one.
    ProvidePassword(String),
    /// The user gave up on the password: end the run.
    Cancel,
}

// ---------------------------------------------------------------------------
// Texts
// ---------------------------------------------------------------------------

/// `[current/total]`
pub open spec fn counter_tag(current: nat, total: nat) -> Seq<char> {
    "["@ + decimal(current) + "/"@ + decimal(total) + "]"@
}

fn counter_tag_chars(current: usize, total: usize) -> (r: Vec<char>)
    ensures
        r@ == counter_tag(current as nat, total as nat),
{
    let mut v = chars_of("[");
    extend_chars(&mut v, &usize_chars(current));
    push_str(&mut v, "/");
    extend_chars(&mut v, &usize_chars(total));
    push_str(&mut v, "]");
    v
}

/// The text `a`, then the tag `[current/total]`, then `b`, then `c`.
fn tagged(a: &str, current: usize, total: usize, b: &str, c: &str) -> (r: String)
    ensures
        r@ == a@ + counter_tag(current as nat, total as nat) + b@ + c@,
{
    let mut v = chars_of(a);
    extend_chars(&mut v, &counter_tag_chars(current, total));
    push_str(&mut v, b);
    push_str(&mut v, c);
    string_of(&v)
}

// ---------------------------------------------------------------------------
// The worker's run over a list of archives
// ---------------------------------------------------------------------------

/// What the worker does next.
#[derive(Debug, PartialEq, Eq)]
pub enum RunStep {
    /// Extract archive `index` (counted from 0) of the run, with `password` if any.
    Extract { index: usize, password: Option<String> },
    /// Wait for the user's answer to a password request.
    AwaitPassword,
    /// The run is over.
    Done,
}

/// The messages a step of the worker sends, and what it does next.
#[derive(Debug)]
pub struct Turn {
    /// The messages to send to the window, in order.
    pub messages: Vec<WorkerMessage>,
    /// What the worker does then.
    pub next: RunStep,
}

/// A run of the worker over the archives found under the path it was given.
pub struct ExtractionRun {
    /// The archives of the run, in order.
    pub files: Vec<String>,
    /// The archive being extracted (counted from 0); `files.len()` once all were.
    pub current: usize,
    /// Whether some archive failed.
    pub has_error: bool,
    /// The password given so far, used for every archive from then on.
    pub password: Option<String>,
    /// Whether the run waits for a password.
    pub awaiting_password: bool,
    /// Whether the run is over.
    pub done: bool,
    /// For each archive extracted so far, in order, whether it succeeded.
    pub outcomes: Ghost<Seq<bool>>,
}

/// The log line when archive `i` of `total` starts.
pub open spec fn start_line(i: nat, total: nat, file: Seq<char>) -> Seq<char> {
    counter_tag(i + 1, total) + " 正在解压: "@ + file
}

/// The messages that follow an archive's outcome: when archive `next` (counted from 0)
/// of `files` remains, its `Progress` and its start line; after the last, one `Finished`,
/// `Ok` when every outcome was a success, else `ExtractFailed("部分文件解压失败")`.
pub open spec fn continues(msgs: Seq<WorkerMessage>, files: Seq<String>, next: nat, outcomes: Seq<bool>) -> bool {
    if next < files.len() {
        &&& msgs.len() == 2
        &&& msgs[0] == (WorkerMessage::Progress { current: (next + 1) as usize, total: files.len() as usize })
        &&& msgs[1] matches WorkerMessage::Log(t) && t@ == start_line(next, files.len(), files[next as int]@)
    } else {
        &&& msgs.len() == 1
        &&& msgs[0] matches WorkerMessage::Finished(res)
        &&& if outcomes.contains(false) {
            res matches Err(ExtractError::ExtractFailed(m)) && m@ == "部分文件解压失败"@
        } else {
            res is Ok
        }
    }
}

/// With one more outcome, some outcome is `x` when one was before or the new one is.
proof fn lemma_push_contains(s: Seq<bool>, v: bool, x: bool)
    ensures
        s.push(v).contains(x) == (s.contains(x) || v == x),
{
    if s.contains(x) {
        let i = choose|i: int| 0 <= i < s.len() && s[i] == x;
        assert(s.push(v)[i] == x);
    }
    if v == x {
        assert(s.push(v)[s.len() as int] == x);
    }
    if s.push(v).contains(x) {
        let i = choose|i: int| 0 <= i < s.push(v).len() && s.push(v)[i] == x;
        if i < s.len() {
            assert(s[i] == x);
        }
    }
}

impl ExtractionRun {
    /// The run's fields agree with each other.
    pub open spec fn well_formed(&self) -> bool {
        &&& self.current <= self.files.len()
        &&& self.outcomes@.len() == self.current
        &&& self.has_error == self.outcomes@.contains(false)
        &&& self.done ==> !self.awaiting_password
        &&& !self.done ==> self.current < self.files.len()
    }

    /// A run over `files`, not yet started.
    pub fn new(files: Vec<String>) -> (r: ExtractionRun)
        ensures
            r.files@ == files@,
            r.current == 0,
            !r.has_error,
            r.outcomes@.len() == 0,
            r.password is None,
            !r.awaiting_password,
            r.done == (files.len() == 0),
            r.well_formed(),
    {
        let done = files.len() == 0;
        let r = ExtractionRun {
            files,
            current: 0,
            has_error: false,
            password: None,
            awaiting_password: false,
            done,
            outcomes: Ghost(Seq::empty()),
        };
        assert(!r.outcomes@.contains(false));
        r
    }

    /// The messages that announce archive `current`, and the step that extracts it.
    fn announce(&self) -> (r: Turn)
        requires
            self.current < self.files.len(),
        ensures
            r.messages@.len() == 2,
            r.messages@[0] == (WorkerMessage::Progress { current: (self.current + 1) as usize, total: self.files.len() }),
            r.messages@[1] matches WorkerMessage::Log(t)
                && t@ == start_line(self.current as nat, self.files.len() as nat, self.files@[self.current as int]@),
            r.next == (RunStep::Extract { index: self.current, password: self.password }),
    {
        let total = self.files.len();
        let i = self.current;
        let mut msgs: Vec<WorkerMessage> = Vec::new();
        msgs.push(WorkerMessage::Progress { current: i + 1, total });
        msgs.push(WorkerMessage::Log(tagged("", i + 1, total, " 正在解压: ", self.files[i].as_str())));
        proof {
            reveal_strlit("");
            assert(""@ + counter_tag((i + 1) as nat, total as nat) =~= counter_tag((i + 1) as nat, total as nat));
        }
        Turn { messages: msgs, next: RunStep::Extract { index: i, password: self.password.clone() } }
    }

    /// The message that ends the run, and the step that says so.
    fn finish(&mut self) -> (r: Turn)
        requires
            old(self).current == old(self).files.len(),
            old(self).outcomes@.len() == old(self).current,
            old(self).has_error == old(self).outcomes@.contains(false),
        ensures
            final(self).done,
            !final(self).awaiting_password,
            final(self).files == old(self).files,
            final(self).current == old(self).current,
            final(self).has_error == old(self).has_error,
            final(self).password == old(self).password,
            final(self).outcomes == old(self).outcomes,
            final(self).well_formed(),
            r.next == RunStep::Done,
            r.messages@.len() == 1,
            continues(r.messages@, final(self).files@, final(self).current as nat, final(self).outcomes@),
    {
        self.done = true;
        self.awaiting_password = false;
        let res = if self.has_error {
            Err(ExtractError::ExtractFailed(String::from_str("部分文件解压失败")))
        } else {
            Ok(())
        };
        let mut msgs: Vec<WorkerMessage> = Vec::new();
        msgs.push(WorkerMessage::Finished(res));
        Turn { messages: msgs, next: RunStep::Done }
    }

    /// Starts the run: announces the first archive, or ends at once when there is none
    /// (with a log line that says so, and success).
    pub fn begin(&mut self) -> (r: Turn)
        requires
            old(self).well_formed(),
            old(self).current == 0,
            !old(self).has_error,
            !old(self).awaiting_password,
        ensures
            final(self).well_formed(),
            final(self).files == old(self).files,
            old(self).files.len() == 0 ==> r.next == RunStep::Done && r.messages@.len() == 2
                && (r.messages@[0] matches WorkerMessage::Log(t) && t@ == "⚠ 没有找到可解压的文件"@)
                && r.messages@[1] == WorkerMessage::Finished(Ok(())),
            old(self).files.len() > 0 ==> r.next == (RunStep::Extract { index: 0, password: old(self).password })
                && continues(r.messages@, old(self).files@, 0, old(self).outcomes@),
            *final(self) == *old(self),
    {
        if self.files.len() == 0 {
            let mut msgs: Vec<WorkerMessage> = Vec::new();
            msgs.push(WorkerMessage::Log(String::from_str("⚠ 没有找到可解压的文件")));
            msgs.push(WorkerMessage::Finished(Ok(())));
            Turn { messages: msgs, next: RunStep::Done }
        } else {
            self.announce()
        }
    }

    /// Records how archive `current` ended, then announces the next one or ends the run.
    fn advance(&mut self, mut msgs: Vec<WorkerMessage>, succeeded: bool) -> (r: Turn)
        requires
            old(self).well_formed(),
            !old(self).done,
            !old(self).awaiting_password,
        ensures
            final(self).files == old(self).files,
            final(self).current == old(self).current + 1,
            final(self).outcomes@ == old(self).outcomes@.push(succeeded),
            final(self).password == old(self).password,
            !final(self).awaiting_password,
            final(self).well_formed(),
            r.messages@.len() > msgs@.len(),
            forall|j: int| 0 <= j < msgs@.len() ==> r.messages@[j] == msgs@[j],
            continues(r.messages@.skip(msgs@.len() as int), final(self).files@, final(self).current as nat, final(self).outcomes@),
            final(self).current < final(self).files.len() ==> !final(self).done
                && r.next == (RunStep::Extract { index: final(self).current, password: final(self).password }),
            final(self).current == final(self).files.len() ==> final(self).done && r.next == RunStep::Done,
    {
        let ghost prev = self.outcomes@;
        self.outcomes = Ghost(self.outcomes@.push(succeeded));
        self.has_error = self.has_error || !succeeded;
        proof {
            lemma_push_contains(prev, succeeded, false);
        }
        self.current = self.current + 1;
        let ghost before = msgs@;
        if self.current < self.files.len() {
            let t = self.announce();
            let ghost tm = t.messages@;
            let mut more = t.messages;
            msgs.append(&mut more);
            assert(forall|j: int| 0 <= j < before.len() ==> msgs@[j] == before[j]);
            assert(msgs@.skip(before.len() as int) =~= tm);
            Turn { messages: msgs, next: t.next }
        } else {
            let t = self.finish();
            let ghost tm = t.messages@;
            let mut more = t.messages;
            msgs.append(&mut more);
            assert(forall|j: int| 0 <= j < before.len() ==> msgs@[j] == before[j]);
            assert(msgs@.skip(before.len() as int) =~= tm);
            Turn { messages: msgs, next: t.next }
        }
    }

    /// What the worker does once archive `current` has been extracted, given the result.
    ///
    /// Success logs it and goes on. `PasswordRequired` asks the window for a password
    /// (saying whether one was already tried) and waits. Any other failure logs
    /// it, marks the run as failed, and goes on. After the last archive the run ends,
    /// with `Ok` exactly when every archive of the run succeeded.
    pub fn on_extracted(&mut self, result: Result<(), ExtractError>) -> (r: Turn)
        requires
            old(self).well_formed(),
            !old(self).done,
            !old(self).awaiting_password,
        ensures
            final(self).well_formed(),
            final(self).files == old(self).files,
            final(self).password == old(self).password,
            match result {
                Ok(()) => {
                    &&& final(self).current == old(self).current + 1
                    &&& final(self).outcomes@ == old(self).outcomes@.push(true)
                    &&& r.messages@[0] matches WorkerMessage::Log(t) && t@ == "✓ "@ + counter_tag(
                        (old(self).current + 1) as nat,
                        old(self).files.len() as nat,
                    ) + " 解压完成: "@ + old(self).files@[old(self).current as int]@
                },
                Err(ExtractError::ExtractFailed(m)) => {
                    &&& final(self).current == old(self).current + 1
                    &&& final(self).outcomes@ == old(self).outcomes@.push(false)
                    &&& r.messages@[0] matches WorkerMessage::Log(t) && t@ == "✗ "@ + counter_tag(
                        (old(self).current + 1) as nat,
                        old(self).files.len() as nat,
                    ) + " 解压失败: "@ + m@
                },
                Err(_) => {
                    &&& final(self).current == old(self).current
                    &&& final(self).outcomes == old(self).outcomes
                    &&& final(self).awaiting_password
                    &&& !final(self).done
                    &&& r.next == RunStep::AwaitPassword
                    &&& r.messages@ == seq![(WorkerMessage::PasswordRequired {
                        file_path: old(self).files@[old(self).current as int],
                        current: (old(self).current + 1) as usize,
                        total: old(self).files.len(),
                        is_wrong_password: old(self).password is Some,
                    })]
                },
            },
            (result is Ok || (result matches Err(ExtractError::ExtractFailed(_)))) ==> {
                &&& !final(self).awaiting_password
                &&& r.messages@.len() >= 1
                &&& continues(r.messages@.skip(1), final(self).files@, final(self).current as nat, final(self).outcomes@)
                &&& (final(self).current < final(self).files.len() ==> !final(self).done && r.next == (RunStep::Extract {
                    index: final(self).current,
                    password: final(self).password,
                }))
                &&& (final(self).current == final(self).files.len() ==> final(self).done && r.next == RunStep::Done)
            },
    {
        let total = self.files.len();
        let i = self.current;
        match result {
            Ok(()) => {
                let mut msgs: Vec<WorkerMessage> = Vec::new();
                let line = tagged("✓ ", i + 1, total, " 解压完成: ", self.files[i].as_str());
                assert(line@ == "✓ "@ + counter_tag((i + 1) as nat, total as nat) + " 解压完成: "@ + self.files@[i as int]@);
                msgs.push(WorkerMessage::Log(line));
                let ghost m0 = msgs@;
                let t = self.advance(msgs, true);
                assert(t.messages@[0] == m0[0]);
                t
            },
            Err(ExtractError::ExtractFailed(m)) => {
                let mut msgs: Vec<WorkerMessage> = Vec::new();
                let line = tagged("✗ ", i + 1, total, " 解压失败: ", m.as_str());
                msgs.push(WorkerMessage::Log(line));
                let ghost m0 = msgs@;
                let t = self.advance(msgs, false);
                assert(t.messages@[0] == m0[0]);
                t
            },
            Err(_) => {
                self.awaiting_password = true;
                let mut msgs: Vec<WorkerMessage> = Vec::new();
                msgs.push(WorkerMessage::PasswordRequired {
                    file_path: self.files[i].clone(),
                    current: i + 1,
                    total,
                    is_wrong_password: self.password.is_some(),
                });
                assert(msgs@ =~= seq![(WorkerMessage::PasswordRequired {
                    file_path: old(self).files@[old(self).current as int],
                    current: (old(self).current + 1) as usize,
                    total: old(self).files.len(),
                    is_wrong_password: old(self).password is Some,
                })]);
                Turn { messages: msgs, next: RunStep::AwaitPassword }
            },
        }
    }

    /// The user typed a password: it is kept for the rest of the run, and the archive
    /// waiting for it is extracted again with it.
    pub fn on_password(&mut self, password: String) -> (r: Turn)
        requires
            old(self).well_formed(),
            old(self).awaiting_password,
        ensures
            final(self).well_formed(),
            final(self).files == old(self).files,
            final(self).current == old(self).current,
            final(self).outcomes == old(self).outcomes,
            final(self).password == Some(password),
            !final(self).awaiting_password,
            !final(self).done,
            r.next == (RunStep::Extract { index: old(self).current, password: Some(password) }),
            continues(r.messages@, old(self).files@, old(self).current as nat, old(self).outcomes@),
    {
        self.password = Some(password);
        self.awaiting_password = false;
        self.announce()
    }

    /// The user gave up on the password: the run ends at once, reporting
    /// `PasswordRequired`, and the remaining archives are left alone.
    pub fn on_cancel(&mut self) -> (r: Turn)
        requires
            old(self).well_formed(),
            old(self).awaiting_password,
        ensures
            final(self).well_formed(),
            final(self).done,
            !final(self).awaiting_password,
            final(self).files == old(self).files,
            final(self).outcomes == old(self).outcomes,
            final(self).current == old(self).current,
            r.next == RunStep::Done,
            r.messages@.len() == 2,
            r.messages@[0] matches WorkerMessage::Log(t) && t@ == "⏹ "@ + counter_tag(
                (old(self).current + 1) as nat,
                old(self).files.len() as nat,
            ) + " 已取消: "@ + old(self).files@[old(self).current as int]@,
            r.messages@[1] == WorkerMessage::Finished(Err(ExtractError::PasswordRequired)),
    {
        let total = self.files.len();
        let i = self.current;
        let mut msgs: Vec<WorkerMessage> = Vec::new();
        msgs.push(WorkerMessage::Log(tagged("⏹ ", i + 1, total, " 已取消: ", self.files[i].as_str())));
        msgs.push(WorkerMessage::Finished(Err(ExtractError::PasswordRequired)));
        self.awaiting_password = false;
        self.done = true;
        Turn { messages: msgs, next: RunStep::Done }
    }
}

/// Whether the worker's scan enters a folder met at depth `cur_depth`: always when
/// `max_depth` is 0 (no limit), else while `cur_depth < max_depth`.
pub fn worker_descend_into(cur_depth: u32, max_depth: u32) -> (r: bool)
    ensures
        r == (max_depth == 0 || cur_depth < max_depth),
{
    max_depth == 0 || cur_depth < max_depth
}

// ---------------------------------------------------------------------------
// The window
// ---------------------------------------------------------------------------

/// The state of the window: what is selected, what is shown, and what is asked.
pub struct AeGuiApp {
    /// The archive or folder chosen.
    pub file_path: Option<String>,
    /// Flat mode: extract straight into the archive's folder.
    pub flat: bool,
    /// Whether a run is going on.
    pub is_extracting: bool,
    /// The status line.
    pub status_text: String,
    /// The log lines of the current run.
    pub log_messages: Vec<String>,
    /// The archive given on the command line (started from the context menu).
    pub silent_file: Option<String>,
    /// Whether the run on `silent_file` is still to be started.
    pub should_start_extract: bool,
    /// Whether the password dialog is shown.
    pub show_password_dialog: bool,
    /// What is typed in the password dialog.
    pub password_input: String,
    /// The warning shown in the password dialog.
    pub password_error: Option<String>,
    /// The archive that waits for a password.
    pub pending_path: Option<String>,
    /// Whether the context-menu entry (standard mode) is registered.
    pub context_menu_registered: bool,
    /// Whether the context-menu entry (flat mode) is registered.
    pub context_menu_flat_registered: bool,
    /// The outcome of the last context-menu change.
    pub context_menu_message: Option<String>,
    /// Whether the window should close.
    pub should_exit: bool,
}

/// How a frame of the window starts.
#[derive(Debug)]
pub enum FrameStart {
    /// Close the window; the frame ends here.
    Close,
    /// Draw the window; send this command to the worker first, if any.
    Proceed(Option<WorkerCommand>),
}

/// The status line while a run starts.
pub open spec fn starting_status(flat: bool, path: Seq<char>) -> Seq<char> {
    (if flat { "平铺模式"@ } else { "标准模式"@ }) + " 正在解压: "@ + path + " ..."@
}

impl AeGuiApp {
    /// The window as it opens: `silent_file` is the archive given on the command line
    /// (it becomes the selection), `flat` the mode, and the two flags say which
    /// context-menu entries are registered.
    pub fn new(silent_file: Option<String>, flat: bool, registered: bool, flat_registered: bool) -> (r: AeGuiApp)
        ensures
            r.file_path == silent_file,
            r.silent_file == silent_file,
            r.flat == flat,
            !r.is_extracting,
            r.status_text@ == Seq::<char>::empty(),
            r.log_messages@.len() == 0,
            !r.should_start_extract,
            !r.show_password_dialog,
            r.password_input@ == Seq::<char>::empty(),
            r.password_error is None,
            r.pending_path is None,
            r.context_menu_registered == registered,
            r.context_menu_flat_registered == flat_registered,
            r.context_menu_message is None,
            !r.should_exit,
    {
        AeGuiApp {
            file_path: silent_file.clone(),
            flat,
            is_extracting: false,
            status_text: String::new(),
            log_messages: Vec::new(),
            silent_file,
            should_start_extract: false,
            show_password_dialog: false,
            password_input: String::new(),
            password_error: None,
            pending_path: None,
            context_menu_registered: registered,
            context_menu_flat_registered: flat_registered,
            context_menu_message: None,
            should_exit: false,
        }
    }

    /// Asks for the run on the command-line archive to start at the first frame.
    pub fn set_auto_start(&mut self)
        ensures
            *final(self) == (AeGuiApp { should_start_extract: true, ..*old(self) }),
    {
        self.should_start_extract = true;
    }

    /// Whether the extract button is enabled: something is selected and no run goes on.
    pub fn can_extract(&self) -> (r: bool)
        ensures
            r == (self.file_path is Some && !self.is_extracting),
    {
        self.file_path.is_some() && !self.is_extracting
    }

    /// Starts a run on `path`: the status line says so, the log is cleared, and the
    /// command for the worker is returned.
    pub fn start_extract(&mut self, path: String) -> (r: WorkerCommand)
        ensures
            final(self).is_extracting,
            final(self).status_text@ == starting_status(old(self).flat, path@),
            final(self).log_messages@.len() == 0,
            final(self).password_error is None,
            *final(self) == (AeGuiApp {
                is_extracting: true,
                status_text: final(self).status_text,
                log_messages: final(self).log_messages,
                password_error: None,
                ..*old(self)
            }),
            r == (WorkerCommand::Extract { path: path, flat: old(self).flat }),
    {
        self.is_extracting = true;
        let mut v = if self.flat { chars_of("平铺模式") } else { chars_of("标准模式") };
        push_str(&mut v, " 正在解压: ");
        push_str(&mut v, path.as_str());
        push_str(&mut v, " ...");
        self.status_text = string_of(&v);
        self.log_messages = Vec::new();
        self.password_error = None;
        WorkerCommand::Extract { path, flat: self.flat }
    }

    /// At the first frame: starts the run on the command-line archive if one was asked
    /// for, once.
    pub fn take_auto_start(&mut self) -> (r: Option<WorkerCommand>)
        ensures
            !final(self).should_start_extract,
            (old(self).should_start_extract && old(self).silent_file is Some) ==> {
                &&& r == Some((WorkerCommand::Extract { path: old(self).silent_file->0, flat: old(self).flat }))
                &&& final(self).is_extracting
                &&& final(self).status_text@ == starting_status(old(self).flat, old(self).silent_file->0@)
                &&& final(self).log_messages@.len() == 0
                &&& *final(self) == (AeGuiApp {
                    should_start_extract: false,
                    is_extracting: true,
                    status_text: final(self).status_text,
                    log_messages: final(self).log_messages,
                    password_error: None,
                    ..*old(self)
                })
            },
            !(old(self).should_start_extract && old(self).silent_file is Some) ==> {
                &&& r is None
                &&& *final(self) == (AeGuiApp { should_start_extract: false, ..*old(self) })
            },
    {
        let start = self.should_start_extract;
        self.should_start_extract = false;
        if start {
            match self.silent_file.clone() {
                Some(path) => Some(self.start_extract(path)),
                None => None,
            }
        } else {
            None
        }
    }

    /// The start of a frame, once the worker's messages have been taken in (each with
    /// `handle_message`). A window that should exit closes at once: nothing else happens in
    /// that frame, and no run is started. Otherwise the frame goes on, starting the run on
    /// the command-line archive if one was asked for (see `take_auto_start`).
    pub fn frame_start(&mut self) -> (r: FrameStart)
        ensures
            old(self).should_exit ==> r == FrameStart::Close && *final(self) == *old(self),
            !old(self).should_exit && old(self).should_start_extract && old(self).silent_file is Some ==> {
                &&& r == FrameStart::Proceed(
                    Some(WorkerCommand::Extract { path: old(self).silent_file->0, flat: old(self).flat }),
                )
                &&& final(self).status_text@ == starting_status(old(self).flat, old(self).silent_file->0@)
                &&& final(self).log_messages@.len() == 0
                &&& *final(self) == (AeGuiApp {
                    should_start_extract: false,
                    is_extracting: true,
                    status_text: final(self).status_text,
                    log_messages: final(self).log_messages,
                    password_error: None,
                    ..*old(self)
                })
            },
            !old(self).should_exit && !(old(self).should_start_extract && old(self).silent_file is Some) ==> {
                &&& r == FrameStart::Proceed(None)
                &&& *final(self) == (AeGuiApp { should_start_extract: false, ..*old(self) })
            },
    {
        if self.should_exit {
            return FrameStart::Close;
        }
        FrameStart::Proceed(self.take_auto_start())
    }

    /// Takes in one message of the worker.
    ///
    /// A log line is added to the log. Progress shows in the status line. The end of a
    /// run stops the run: success says so (and closes a window started from the context
    /// menu), a failure shows its reason, and a run ended for want of a password keeps
    /// the status line as it is. A password request opens the dialog for that archive,
    /// empty, with a warning if a password was already tried.
    pub fn handle_message(&mut self, msg: WorkerMessage)
        ensures
            match msg {
                WorkerMessage::Log(t) => {
                    &&& final(self).log_messages@ == old(self).log_messages@.push(t)
                    &&& *final(self) == (AeGuiApp { log_messages: final(self).log_messages, ..*old(self) })
                },
                WorkerMessage::Progress { current, total } => {
                    &&& final(self).status_text@ == "解压进度: "@ + decimal(current as nat) + "/"@ + decimal(total as nat)
                    &&& *final(self) == (AeGuiApp { status_text: final(self).status_text, ..*old(self) })
                },
                WorkerMessage::Finished(res) => {
                    &&& *final(self) == (AeGuiApp {
                        is_extracting: false,
                        status_text: final(self).status_text,
                        should_exit: final(self).should_exit,
                        ..*old(self)
                    })
                    &&& match res {
                        Ok(()) => final(self).status_text@ == "✅ 解压完成！"@
                            && final(self).should_exit == (old(self).should_exit || old(self).silent_file is Some),
                        Err(ExtractError::ExtractFailed(m)) => final(self).status_text@ == "❌ 解压失败: "@ + m@
                            && final(self).should_exit == old(self).should_exit,
                        Err(_) => final(self).status_text == old(self).status_text
                            && final(self).should_exit == old(self).should_exit,
                    }
                },
                WorkerMessage::PasswordRequired { file_path, current, total, is_wrong_password } => {
                    &&& final(self).status_text@ == "🔒 "@ + counter_tag(current as nat, total as nat) + " 需要密码"@
                    &&& final(self).pending_path == Some(file_path)
                    &&& final(self).show_password_dialog
                    &&& final(self).password_input@ == Seq::<char>::empty()
                    &&& if is_wrong_password {
                        final(self).password_error matches Some(e) && e@ == "密码错误，请重新输入"@
                    } else {
                        final(self).password_error is None
                    }
                    &&& *final(self) == (AeGuiApp {
                        status_text: final(self).status_text,
                        pending_path: final(self).pending_path,
                        show_password_dialog: true,
                        password_input: final(self).password_input,
                        password_error: final(self).password_error,
                        ..*old(self)
                    })
                },
            },
    {
        match msg {
            WorkerMessage::Log(text) => {
                self.log_messages.push(text);
            },
            WorkerMessage::Finished(result) => {
                self.is_extracting = false;
                match result {
                    Ok(()) => {
                        self.status_text = String::from_str("✅ 解压完成！");
                        if self.silent_file.is_some() {
                            self.should_exit = true;
                        }
                    },
                    Err(ExtractError::ExtractFailed(m)) => {
                        self.status_text = crate::joined("❌ 解压失败: ", m.as_str());
                    },
                    Err(_) => {},
                }
            },
            WorkerMessage::Progress { current, total } => {
                let mut v = chars_of("解压进度: ");
                extend_chars(&mut v, &usize_chars(current));
                push_str(&mut v, "/");
                extend_chars(&mut v, &usize_chars(total));
                self.status_text = string_of(&v);
            },
            WorkerMessage::PasswordRequired { file_path, current, total, is_wrong_password } => {
                self.status_text = tagged("🔒 ", current, total, " 需要密码", "");
                proof {
                    reveal_strlit("");
                    assert(self.status_text@ =~= "🔒 "@ + counter_tag(current as nat, total as nat) + " 需要密码"@);
                }
                self.pending_path = Some(file_path);
                self.show_password_dialog = true;
                self.password_input = String::new();
                if is_wrong_password {
                    self.password_error = Some(String::from_str("密码错误，请重新输入"));
                } else {
                    self.password_error = None;
                }
            },
        }
    }

    /// The user confirms the password dialog. A blank password keeps the dialog open
    /// with a warning; any other is sent, trimmed, to the worker and closes the dialog.
    pub fn submit_password(&mut self) -> (r: Option<WorkerCommand>)
        ensures
            trimmed(old(self).password_input@).len() == 0 ==> {
                &&& r is None
                &&& final(self).password_error matches Some(e) && e@ == "密码不能为空"@
                &&& *final(self) == (AeGuiApp { password_error: final(self).password_error, ..*old(self) })
            },
            trimmed(old(self).password_input@).len() > 0 ==> {
                &&& r matches Some(WorkerCommand::ProvidePassword(p)) && p@ == trimmed(old(self).password_input@)
                &&& *final(self) == (AeGuiApp { show_password_dialog: false, password_error: None, ..*old(self) })
            },
    {
        let t = trim_chars(&chars_of(self.password_input.as_str()));
        if t.len() == 0 {
            self.password_error = Some(String::from_str("密码不能为空"));
            return None;
        }
        self.show_password_dialog = false;
        self.password_error = None;
        Some(WorkerCommand::ProvidePassword(string_of(&t)))
    }

    /// The user cancels the password dialog: it closes, and the worker is told to give up.
    pub fn cancel_password(&mut self) -> (r: WorkerCommand)
        ensures
            r == WorkerCommand::Cancel,
            final(self).status_text@ == "已取消解压"@,
            *final(self) == (AeGuiApp {
                show_password_dialog: false,
                password_error: None,
                pending_path: None,
                status_text: final(self).status_text,
                ..*old(self)
            }),
    {
        self.show_password_dialog = false;
        self.password_error = None;
        self.pending_path = None;
        self.status_text = String::from_str("已取消解压");
        WorkerCommand::Cancel
    }

    /// An archive was picked in the file dialog.
    pub fn select_file(&mut self, path: String)
        ensures
            final(self).status_text@ == "已选择: "@ + path@,
            *final(self) == (AeGuiApp { file_path: Some(path), status_text: final(self).status_text, ..*old(self) }),
    {
        self.status_text = crate::joined("已选择: ", path.as_str());
        self.file_path = Some(path);
    }

    /// A folder was picked in the folder dialog.
    pub fn select_directory(&mut self, path: String)
        ensures
            final(self).status_text@ == "已选择目录: "@ + path@,
            *final(self) == (AeGuiApp { file_path: Some(path), status_text: final(self).status_text, ..*old(self) }),
    {
        self.status_text = crate::joined("已选择目录: ", path.as_str());
        self.file_path = Some(path);
    }

    /// Records the outcome of registering a context-menu entry (flat mode or standard).
    pub fn registration_done(&mut self, flat_mode: bool, result: Result<(), String>)
        ensures
            match result {
                Ok(()) => {
                    &&& (flat_mode ==> final(self).context_menu_flat_registered
                        && final(self).context_menu_registered == old(self).context_menu_registered)
                    &&& (!flat_mode ==> final(self).context_menu_registered
                        && final(self).context_menu_flat_registered == old(self).context_menu_flat_registered)
                    &&& final(self).context_menu_message matches Some(m) && m@ == if flat_mode {
                        "✅ 平铺模式右键菜单注册成功"@
                    } else {
                        "✅ 标准模式右键菜单注册成功"@
                    }
                },
                Err(e) => {
                    &&& final(self).context_menu_registered == old(self).context_menu_registered
                    &&& final(self).context_menu_flat_registered == old(self).context_menu_flat_registered
                    &&& final(self).context_menu_message matches Some(m) && m@ == "❌ 注册失败: "@ + e@
                },
            },
            *final(self) == (AeGuiApp {
                context_menu_registered: final(self).context_menu_registered,
                context_menu_flat_registered: final(self).context_menu_flat_registered,
                context_menu_message: final(self).context_menu_message,
                ..*old(self)
            }),
    {
        match result {
            Ok(()) => {
                if flat_mode {
                    self.context_menu_flat_registered = true;
                    self.context_menu_message = Some(String::from_str("✅ 平铺模式右键菜单注册成功"));
                } else {
                    self.context_menu_registered = true;
                    self.context_menu_message = Some(String::from_str("✅ 标准模式右键菜单注册成功"));
                }
            },
            Err(e) => {
                self.context_menu_message = Some(crate::joined("❌ 注册失败: ", e.as_str()));
            },
        }
    }

    /// Records the outcome of removing both context-menu entries.
    pub fn unregistration_done(&mut self, result: Result<(), String>)
        ensures
            match result {
                Ok(()) => {
                    &&& !final(self).context_menu_registered
                    &&& !final(self).context_menu_flat_registered
                    &&& final(self).context_menu_message matches Some(m) && m@ == "✅ 所有右键菜单已取消注册"@
                },
                Err(e) => {
                    &&& final(self).context_menu_registered == old(self).context_menu_registered
                    &&& final(self).context_menu_flat_registered == old(self).context_menu_flat_registered
                    &&& final(self).context_menu_message matches Some(m) && m@ == "❌ 取消注册失败: "@ + e@
                },
            },
            *final(self) == (AeGuiApp {
                context_menu_registered: final(self).context_menu_registered,
                context_menu_flat_registered: final(self).context_menu_flat_registered,
                context_menu_message: final(self).context_menu_message,
                ..*old(self)
            }),
    {
        match result {
            Ok(()) => {
                self.context_menu_registered = false;
                self.context_menu_flat_registered = false;
                self.context_menu_message = Some(String::from_str("✅ 所有右键菜单已取消注册"));
            },
            Err(e) => {
                self.context_menu_message = Some(crate::joined("❌ 取消注册失败: ", e.as_str()));
            },
        }
    }
}

} // verus!
