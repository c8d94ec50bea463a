//! Decisions of the command line: the paths a list file names, and where each archive
//! is extracted.

use vstd::prelude::*;

use crate::path_utils::{path_file_stem, path_join, path_parent, std_path_join, std_path_parent, stem_of_path};
use crate::text::{chars_of, string_of, trim_chars, trimmed};
use crate::ExtractError;

verus! {

/// The pieces of `s` between `\n` characters (`n` newlines give `n + 1` pieces).
pub open spec fn newline_pieces(s: Seq<char>) -> Seq<Seq<char>>
    decreases s.len(),
{
    if s.len() == 0 {
        seq![Seq::<char>::empty()]
    } else {
        let p = newline_pieces(s.drop_last());
        if s.last() == '\n' {
            p.push(Seq::empty())
        } else {
            p.update(p.len() - 1, p.last().push(s.last()))
        }
    }
}

proof fn lemma_newline_pieces_nonempty(s: Seq<char>)
    ensures
        newline_pieces(s).len() >= 1,
    decreases s.len(),
{
    if s.len() > 0 {
        lemma_newline_pieces_nonempty(s.drop_last());
    }
}

/// A trimmed line names a path when it is not empty and is no comment (`#`).
pub open spec fn is_path_line(t: Seq<char>) -> bool {
    t.len() > 0 && t[0] != '#'
}

/// The trimmed lines of `lines` that name paths, in order.
pub open spec fn path_lines(lines: Seq<Seq<char>>) -> Seq<Seq<char>>
    decreases lines.len(),
{
    if lines.len() == 0 {
        Seq::empty()
    } else {
        let rest = path_lines(lines.drop_last());
        if is_path_line(trimmed(lines.last())) {
            rest.push(trimmed(lines.last()))
        } else {
            rest
        }
    }
}

/// The paths a list file holds: its lines, trimmed, without blank ones and without
/// comments (lines starting with `#`).
pub open spec fn list_entries(content: Seq<char>) -> Seq<Seq<char>> {
    path_lines(newline_pieces(content))
}

/// The paths that a list file with contents `content` names, one per line, in order.
///
/// Lines are cut at `\n`; each is trimmed of white space (which takes the `\r` of a
/// `\r\n` too), and blank lines and lines starting with `#` are left out.
pub fn parse_path_list(content: &str) -> (r: Vec<String>)
    ensures
        r@.map_values(|s: String| s@) == list_entries(content@),
{
    let v = chars_of(content);
    let mut out: Vec<String> = Vec::new();
    let mut cur: Vec<char> = Vec::new();
    let mut i: usize = 0;
    proof {
        lemma_newline_pieces_nonempty(v@.take(0));
        assert(v@.take(0) =~= Seq::<char>::empty());
    }
    while i < v.len()
        invariant
            i <= v.len(),
            v@ == content@,
            newline_pieces(v@.take(i as int)).len() >= 1,
            cur@ == newline_pieces(v@.take(i as int)).last(),
            out@.map_values(|s: String| s@) == path_lines(newline_pieces(v@.take(i as int)).drop_last()),
        decreases v.len() - i,
    {
        let ghost before = newline_pieces(v@.take(i as int));
        let c = v[i];
        assert(v@.take(i + 1).drop_last() =~= v@.take(i as int));
        assert(v@.take(i + 1).last() == c);
        if c == '\n' {
            let t = trim_chars(&cur);
            if t.len() > 0 && t[0] != '#' {
                out.push(string_of(&t));
            }
            cur = Vec::new();
            proof {
                let after = newline_pieces(v@.take(i + 1));
                assert(after == before.push(Seq::empty()));
                assert(after.drop_last() =~= before);
                assert(before.drop_last().push(before.last()) =~= before);
                assert(out@.map_values(|s: String| s@) =~= path_lines(before));
            }
        } else {
            cur.push(c);
            proof {
                let after = newline_pieces(v@.take(i + 1));
                assert(after.drop_last() =~= before.drop_last());
                assert(cur@ =~= after.last());
            }
        }
        i = i + 1;
    }
    assert(v@.take(v.len() as int) =~= v@);
    let ghost all = newline_pieces(v@);
    let t = trim_chars(&cur);
    if t.len() > 0 && t[0] != '#' {
        out.push(string_of(&t));
    }
    assert(all.drop_last().push(all.last()) =~= all);
    assert(out@.map_values(|s: String| s@) =~= path_lines(all));
    out
}

/// The paths that the list file shown as `list_display` names, read from its contents
/// (see `parse_path_list`); a list that names none is refused, with the message
/// `列表文件 '<list_display>' 中没有有效的路径条目`.
pub fn list_file_paths(list_display: &str, content: &str) -> (r: Result<Vec<String>, String>)
    ensures
        list_entries(content@).len() == 0 <==> r is Err,
        r matches Ok(v) ==> v@.map_values(|s: String| s@) == list_entries(content@),
        r matches Err(m) ==> m@ == "列表文件 '"@ + list_display@ + "' 中没有有效的路径条目"@,
{
    let paths = parse_path_list(content);
    if paths.len() == 0 {
        let mut m = chars_of("列表文件 '");
        crate::text::push_str(&mut m, list_display);
        crate::text::push_str(&mut m, "' 中没有有效的路径条目");
        Err(string_of(&m))
    } else {
        Ok(paths)
    }
}

/// Where an archive is extracted.
#[derive(Debug)]
pub enum ExtractTarget {
    /// Into the default folder beside the archive (see `path_utils::default_dest`).
    Default,
    /// Into this folder.
    Into(String),
}

/// Where the archive at `path` is extracted, given the output root (`-o`) and flat mode
/// (`--flat`):
/// without either, into the default folder beside the archive; flat without a root,
/// straight into the archive's own folder (`.` when the path has none); with a root,
/// into `<root>/<stem of the archive>`, or straight into the root when flat.
pub fn extraction_target(path: &str, output_dir: Option<&str>, flat: bool) -> (r: ExtractTarget)
    ensures
        match (output_dir, flat) {
            (None, false) => r == ExtractTarget::Default,
            (None, true) => r matches ExtractTarget::Into(d) && d@ == match std_path_parent(path@) {
                Some(q) => q,
                None => seq!['.'],
            },
            (Some(base), false) => r matches ExtractTarget::Into(d)
                && d@ == std_path_join(base@, stem_of_path(path@)),
            (Some(base), true) => r matches ExtractTarget::Into(d) && d@ == base@,
        },
{
    match output_dir {
        None => {
            if !flat {
                ExtractTarget::Default
            } else {
                match path_parent(path) {
                    Some(q) => ExtractTarget::Into(q),
                    None => {
                        let d = String::from_str(".");
                        proof {
                            reveal_strlit(".");
                        }
                        ExtractTarget::Into(d)
                    },
                }
            }
        },
        Some(base) => {
            if flat {
                ExtractTarget::Into(String::from_str(base))
            } else {
                let stem = match path_file_stem(path) {
                    Some(s) => s,
                    None => String::new(),
                };
                assert(stem@ == stem_of_path(path@));
                ExtractTarget::Into(path_join(base, stem.as_str()))
            }
        },
    }
}

/// What is done with a path given on the command line.
#[derive(Debug, PartialEq, Eq, Structural)]
pub enum PathPlan {
    /// Nothing exists there: it is reported and passed over.
    SkipMissing,
    /// A file: it is extracted.
    ExtractFile,
    /// A folder: the archives under it are found and extracted one after another.
    ScanDirectory,
    /// Something else (neither file nor folder): nothing is done.
    Nothing,
}

/// What is done with a path from what the file system answered of it.
pub open spec fn path_plan_of(exists: bool, is_file: bool, is_dir: bool) -> PathPlan {
    if !exists {
        PathPlan::SkipMissing
    } else if is_file {
        PathPlan::ExtractFile
    } else if is_dir {
        PathPlan::ScanDirectory
    } else {
        PathPlan::Nothing
    }
}

/// What is done with a path, given what the file system answered: whether something
/// exists there, whether it is a file, whether it is a folder.
pub fn plan_path(exists: bool, is_file: bool, is_dir: bool) -> (r: PathPlan)
    ensures
        r == path_plan_of(exists, is_file, is_dir),
{
    if !exists {
        PathPlan::SkipMissing
    } else if is_file {
        PathPlan::ExtractFile
    } else if is_dir {
        PathPlan::ScanDirectory
    } else {
        PathPlan::Nothing
    }
}

/// What the extraction of the archives found in a folder does next.
#[derive(Debug)]
pub enum BatchStep {
    /// No archive was found: it is reported, and the folder ends successfully.
    NothingFound,
    /// Extract the archive at this index of those found (counted from 0).
    Extract(usize),
    /// The folder is done, with this result.
    Done(Result<(), ExtractError>),
}

/// The extraction, one after another, of the `count` archives found in a folder; the
/// first failure ends it.
pub struct ArchiveBatch {
    /// How many archives were found.
    pub count: usize,
    /// The archive being extracted.
    pub next: usize,
    /// Whether the batch is over.
    pub done: bool,
}

impl ArchiveBatch {
    /// The fields agree with each other.
    pub open spec fn well_formed(&self) -> bool {
        !self.done ==> self.next < self.count
    }

    /// Starts the extraction of `count` archives: the first one, or `NothingFound`.
    pub fn new(count: usize) -> (r: (ArchiveBatch, BatchStep))
        ensures
            r.0.well_formed(),
            r.0.count == count,
            r.0.next == 0,
            count == 0 ==> r.0.done && r.1 is NothingFound,
            count > 0 ==> !r.0.done && (r.1 matches BatchStep::Extract(i) && i == 0),
    {
        if count == 0 {
            (ArchiveBatch { count, next: 0, done: true }, BatchStep::NothingFound)
        } else {
            (ArchiveBatch { count, next: 0, done: false }, BatchStep::Extract(0))
        }
    }

    /// What follows the extraction of archive `next`: a failure ends the batch with it;
    /// a success goes on to the next archive, or, after the last, ends it successfully.
    pub fn on_result(&mut self, result: Result<(), ExtractError>) -> (r: BatchStep)
        requires
            old(self).well_formed(),
            !old(self).done,
        ensures
            final(self).well_formed(),
            final(self).count == old(self).count,
            match result {
                Err(e) => final(self).done && r == BatchStep::Done(Err(e)),
                Ok(()) => if old(self).next + 1 < old(self).count {
                    !final(self).done && final(self).next == old(self).next + 1
                        && (r matches BatchStep::Extract(i) && i == old(self).next + 1)
                } else {
                    final(self).done && r == BatchStep::Done(Ok(()))
                },
            },
    {
        match result {
            Err(e) => {
                self.done = true;
                BatchStep::Done(Err(e))
            },
            Ok(()) => {
                if self.next + 1 < self.count {
                    self.next = self.next + 1;
                    BatchStep::Extract(self.next)
                } else {
                    self.done = true;
                    BatchStep::Done(Ok(()))
                }
            },
        }
    }
}

/// The lines `ls` put back together, with a `\n` between each two.
pub open spec fn joined_lines(ls: Seq<Seq<char>>) -> Seq<char>
    decreases ls.len(),
{
    if ls.len() <= 1 {
        if ls.len() == 1 { ls[0] } else { Seq::empty() }
    } else {
        joined_lines(ls.drop_last()) + seq!['\n'] + ls.last()
    }
}

/// The lines of a text are cut exactly at its `\n` characters: no line holds a `\n`,
/// and the lines joined with `\n` give the text back.
pub proof fn lemma_newline_pieces_are_the_lines(s: Seq<char>)
    ensures
        joined_lines(newline_pieces(s)) == s,
        forall|i: int, j: int|
            0 <= i < newline_pieces(s).len() && 0 <= j < newline_pieces(s)[i].len()
                ==> #[trigger] newline_pieces(s)[i][j] != '\n',
    decreases s.len(),
{
    lemma_newline_pieces_nonempty(s);
    if s.len() == 0 {
        assert(joined_lines(seq![Seq::<char>::empty()]) == Seq::<char>::empty());
    } else {
        let p = newline_pieces(s.drop_last());
        lemma_newline_pieces_are_the_lines(s.drop_last());
        lemma_newline_pieces_nonempty(s.drop_last());
        let q = newline_pieces(s);
        if s.last() == '\n' {
            assert(q.drop_last() =~= p);
            assert(q.last() =~= Seq::<char>::empty());
            assert(s =~= s.drop_last() + seq!['\n'] + Seq::<char>::empty());
            assert forall|i: int, j: int| 0 <= i < q.len() && 0 <= j < q[i].len() implies #[trigger] q[i][j] != '\n' by {
                if i < p.len() {
                    assert(q[i] == p[i]);
                }
            }
        } else {
            let last = p.last().push(s.last());
            assert(q.last() == last);
            if p.len() == 1 {
                assert(s =~= p[0].push(s.last()));
            } else {
                assert(q.drop_last() =~= p.drop_last());
                assert(joined_lines(p) == joined_lines(p.drop_last()) + seq!['\n'] + p.last());
                assert(s =~= s.drop_last().push(s.last()));
                assert(s =~= joined_lines(p.drop_last()) + seq!['\n'] + last);
            }
            assert forall|i: int, j: int| 0 <= i < q.len() && 0 <= j < q[i].len() implies #[trigger] q[i][j] != '\n' by {
                if i < p.len() - 1 {
                    assert(q[i] == p[i]);
                } else {
                    if j < p.last().len() {
                        assert(q[i][j] == p[p.len() - 1][j]);
                    }
                }
            }
        }
    }
}

/// The paths of a list file are exactly its lines, each trimmed, that are not blank and
/// do not start with `#`, in the order of the file: no other line is left out
/// (absolute paths such as `/home/user/game.rar` among them), and nothing is added.
pub proof fn lemma_list_entries_complete(content: Seq<char>)
    ensures
        list_entries(content) == newline_pieces(content).map_values(|l: Seq<char>| trimmed(l)).filter(
            |t: Seq<char>| t.len() > 0 && t[0] != '#',
        ),
{
    lemma_path_lines_filter(newline_pieces(content));
}

proof fn lemma_path_lines_filter(lines: Seq<Seq<char>>)
    ensures
        path_lines(lines) == lines.map_values(|l: Seq<char>| trimmed(l)).filter(
            |t: Seq<char>| t.len() > 0 && t[0] != '#',
        ),
    decreases lines.len(),
{
    reveal(Seq::filter);
    let pred = |t: Seq<char>| t.len() > 0 && t[0] != '#';
    let m = lines.map_values(|l: Seq<char>| trimmed(l));
    if lines.len() > 0 {
        lemma_path_lines_filter(lines.drop_last());
        assert(m.drop_last() =~= lines.drop_last().map_values(|l: Seq<char>| trimmed(l)));
        assert(m.last() == trimmed(lines.last()));
    } else {
        assert(m =~= Seq::<Seq<char>>::empty());
    }
}

/// Every path a list file yields is a non-blank line that is no comment: comment lines
/// (`#`) and blank lines never come out.
pub proof fn lemma_list_entries_are_paths(content: Seq<char>)
    ensures
        forall|i: int| 0 <= i < list_entries(content).len() ==> #[trigger] is_path_line(list_entries(content)[i]),
{
    lemma_path_lines_are_paths(newline_pieces(content));
}

proof fn lemma_path_lines_are_paths(lines: Seq<Seq<char>>)
    ensures
        forall|i: int| 0 <= i < path_lines(lines).len() ==> #[trigger] is_path_line(path_lines(lines)[i]),
    decreases lines.len(),
{
    if lines.len() > 0 {
        lemma_path_lines_are_paths(lines.drop_last());
        let rest = path_lines(lines.drop_last());
        let all = path_lines(lines);
        assert forall|i: int| 0 <= i < all.len() implies #[trigger] is_path_line(all[i]) by {
            if i < rest.len() {
                assert(all[i] == rest[i]);
            }
        }
    }
}

/// Whether a folder met at depth `cur_depth` of a scan is entered, `max_depth` being the
/// deepest level scanned (the folder given is level 1).
pub fn descend_into(cur_depth: u32, max_depth: u32) -> (r: bool)
    ensures
        r == (cur_depth < max_depth),
{
    cur_depth < max_depth
}

} // verus!
