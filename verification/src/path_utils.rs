//! Where extracted files go: the default folder of an archive and free names for
//! colliding files, with the path operations of std behind trusted items.

use vstd::prelude::*;

use crate::text::{chars_of, decimal, decimal_chars, extend_chars, last_index_of, lemma_decimal_injective, rfind_char, string_of};

verus! {

// ---------------------------------------------------------------------------
// std::path, behind trusted items
// ---------------------------------------------------------------------------

/// The characters of an optional string.
pub open spec fn opt_chars(o: Option<String>) -> Option<Seq<char>> {
    match o {
        Some(s) => Some(s@),
        None => None,
    }
}

/// What `Path::parent` returns for the path written `p`.
pub uninterp spec fn std_path_parent(p: Seq<char>) -> Option<Seq<char>>;

/// What `Path::file_name` returns for the path written `p`.
pub uninterp spec fn std_path_file_name(p: Seq<char>) -> Option<Seq<char>>;

/// What `Path::join` returns when `rel` is joined onto `base`.
pub uninterp spec fn std_path_join(base: Seq<char>, rel: Seq<char>) -> Seq<char>;

/// Calls `Path::parent`; the contract names its result.
#[verifier::external_body]
pub(crate) fn path_parent(p: &str) -> (r: Option<String>)
    ensures
        opt_chars(r) == std_path_parent(p@),
{
    match std::path::Path::new(p).parent() {
        Some(q) => Some(q.to_string_lossy().into_owned()),
        None => None,
    }
}

/// Calls `Path::file_name`; the contract names its result.
#[verifier::external_body]
fn path_file_name(p: &str) -> (r: Option<String>)
    ensures
        opt_chars(r) == std_path_file_name(p@),
{
    match std::path::Path::new(p).file_name() {
        Some(n) => Some(n.to_string_lossy().into_owned()),
        None => None,
    }
}

/// Calls `Path::file_stem`. As its documentation says, the stem is taken from the file
/// name: the whole name when it holds no `.` or its only `.` is the first character,
/// else the part before the last `.`.
#[verifier::external_body]
pub(crate) fn path_file_stem(p: &str) -> (r: Option<String>)
    ensures
        opt_chars(r) == match std_path_file_name(p@) {
            Some(n) => Some(split_extension(n).0),
            None => None,
        },
{
    match std::path::Path::new(p).file_stem() {
        Some(n) => Some(n.to_string_lossy().into_owned()),
        None => None,
    }
}

/// Calls `Path::join`; the contract names its result.
#[verifier::external_body]
pub(crate) fn path_join(base: &str, rel: &str) -> (r: String)
    ensures
        r@ == std_path_join(base@, rel@),
{
    std::path::Path::new(base).join(rel).to_string_lossy().into_owned()
}

/// Calls `Path::exists`. Its answer depends on the file system at the moment of the
/// call, so nothing is stated of it.
#[verifier::external_body]
pub(crate) fn path_exists(p: &str) -> bool {
    std::path::Path::new(p).exists()
}

/// Calls `Path::is_dir`. Its answer depends on the file system at the moment of the
/// call, so nothing is stated of it.
#[verifier::external_body]
pub(crate) fn path_is_dir(p: &str) -> bool {
    std::path::Path::new(p).is_dir()
}

// ---------------------------------------------------------------------------
// Names
// ---------------------------------------------------------------------------

/// Splits a file name into stem and extension at its last `.`; a name without `.`, or
/// whose only `.` comes first (`.gitignore`), is all stem.
pub open spec fn split_extension(name: Seq<char>) -> (Seq<char>, Seq<char>) {
    match last_index_of(name, '.') {
        Some(k) => if k > 0 {
            (name.take(k), name.skip(k))
        } else {
            (name, Seq::empty())
        },
        None => (name, Seq::empty()),
    }
}

/// The directory a path lies in, `.` when it has none.
pub open spec fn parent_or_dot(p: Seq<char>) -> Seq<char> {
    match std_path_parent(p) {
        Some(q) => q,
        None => seq!['.'],
    }
}

/// The stem of the file a path names, empty when it names none.
pub open spec fn stem_of_path(p: Seq<char>) -> Seq<char> {
    match std_path_file_name(p) {
        Some(n) => split_extension(n).0,
        None => Seq::empty(),
    }
}

/// The `k`-th name tried for the folder of an archive with stem `stem`:
/// the stem itself, then `stem_`, then `stem_2`, `stem_3`, ...
pub open spec fn dest_name(stem: Seq<char>, k: nat) -> Seq<char> {
    if k == 0 {
        stem
    } else if k == 1 {
        stem.push('_')
    } else {
        stem.push('_') + decimal(k)
    }
}

/// The `k`-th folder tried for the archive at `p` (see `dest_name`).
pub open spec fn dest_candidate(p: Seq<char>, k: nat) -> Seq<char> {
    std_path_join(parent_or_dot(p), dest_name(stem_of_path(p), k))
}

/// The `k`-th (`k >= 1`) name tried for a file named `name` that collides:
/// `_k` goes between the stem and the extension.
pub open spec fn conflict_name(name: Seq<char>, k: nat) -> Seq<char> {
    split_extension(name).0.push('_') + decimal(k) + split_extension(name).1
}

/// The file name of a path, empty when it has none.
pub open spec fn file_name_of_path(p: Seq<char>) -> Seq<char> {
    match std_path_file_name(p) {
        Some(n) => n,
        None => Seq::empty(),
    }
}

/// The `k`-th path tried in place of the colliding file `p`.
pub open spec fn conflict_candidate(p: Seq<char>, k: nat) -> Seq<char> {
    std_path_join(parent_or_dot(p), conflict_name(file_name_of_path(p), k))
}

/// Splits a file name at its last `.` (see `split_extension`).
pub fn split_name(name: &[char]) -> (r: (Vec<char>, Vec<char>))
    ensures
        (r.0@, r.1@) == split_extension(name@),
{
    let mut stem: Vec<char> = Vec::new();
    let mut ext: Vec<char> = Vec::new();
    proof {
        crate::text::lemma_last_index_of(name@, '.');
    }
    match rfind_char(name, '.') {
        Some(pos) => {
            if pos > 0 {
                let mut i: usize = 0;
                while i < pos
                    invariant
                        pos < name.len(),
                        i <= pos,
                        stem@ == name@.take(i as int),
                    decreases pos - i,
                {
                    stem.push(name[i]);
                    i = i + 1;
                    assert(stem@ =~= name@.take(i as int));
                }
                while i < name.len()
                    invariant
                        pos <= i <= name.len(),
                        ext@ == name@.subrange(pos as int, i as int),
                    decreases name.len() - i,
                {
                    ext.push(name[i]);
                    i = i + 1;
                    assert(ext@ =~= name@.subrange(pos as int, i as int));
                }
                assert(ext@ =~= name@.skip(pos as int));
            } else {
                extend_chars(&mut stem, name);
                assert(stem@ =~= name@);
            }
        },
        None => {
            extend_chars(&mut stem, name);
            assert(stem@ =~= name@);
        },
    }
    assert(ext@ == split_extension(name@).1);
    (stem, ext)
}

/// The `k`-th folder name tried for an archive stem (see `dest_name`).
pub fn dest_name_chars(stem: &[char], k: u32) -> (r: Vec<char>)
    ensures
        r@ == dest_name(stem@, k as nat),
{
    let mut v: Vec<char> = Vec::new();
    extend_chars(&mut v, stem);
    if k == 0 {
        return v;
    }
    v.push('_');
    if k >= 2 {
        let d = decimal_chars(k as u64);
        extend_chars(&mut v, &d);
    }
    v
}

/// The `k`-th name tried for a colliding file (see `conflict_name`).
pub fn conflict_name_chars(stem: &[char], ext: &[char], k: u32) -> (r: Vec<char>)
    ensures
        r@ == stem@.push('_') + decimal(k as nat) + ext@,
{
    let mut v: Vec<char> = Vec::new();
    extend_chars(&mut v, stem);
    v.push('_');
    let d = decimal_chars(k as u64);
    extend_chars(&mut v, &d);
    extend_chars(&mut v, ext);
    v
}

/// The directory of `path` (`.` when it has none) and the stem of its file name
/// (empty when it has none).
fn parent_and_stem(path: &str) -> (r: (String, Vec<char>))
    ensures
        r.0@ == parent_or_dot(path@),
        r.1@ == stem_of_path(path@),
{
    let parent = match path_parent(path) {
        Some(q) => q,
        None => {
            let d = String::from_str(".");
            proof {
                reveal_strlit(".");
            }
            d
        },
    };
    let stem = match path_file_stem(path) {
        Some(s) => chars_of(&s),
        None => Vec::new(),
    };
    assert(stem@ == stem_of_path(path@));
    (parent, stem)
}

/// The `k`-th folder that `default_dest` tries for the archive at `path`.
pub fn default_dest_candidate(path: &str, k: u32) -> (r: String)
    ensures
        r@ == dest_candidate(path@, k as nat),
{
    let (parent, stem) = parent_and_stem(path);
    let name = string_of(&dest_name_chars(&stem, k));
    path_join(&parent, &name)
}

// ---------------------------------------------------------------------------
// Probing the file system
// ---------------------------------------------------------------------------

/// A probe answered, for the path written `p`, that something exists there and is no
/// directory: the name is taken.
pub open spec fn reported_taken<F: Fn(String) -> (bool, bool)>(probe: F, p: Seq<char>) -> bool {
    exists|x: String| x@ == p && #[trigger] probe.ensures((x,), (true, false))
}

/// A probe answered, for the path written `p`, that nothing exists there or a directory
/// does: the name is free.
pub open spec fn reported_free<F: Fn(String) -> (bool, bool)>(probe: F, p: Seq<char>) -> bool {
    exists|x: String, a: (bool, bool)| x@ == p && #[trigger] probe.ensures((x,), a) && (!a.0 || a.1)
}

/// Whether a path is free for a new file or folder, from what the file system answered:
/// nothing exists there, or a directory does.
pub open spec fn free_answer(present: bool, is_dir: bool) -> bool {
    !present || is_dir
}

/// What the file system says of the path written `p`: whether something exists there,
/// and whether it is a directory (`Path::exists`, `Path::is_dir`). The answers depend on
/// the disk at the moment of the call, so nothing is stated of them; the functions that
/// search for a free name state their choice over what this function answered.
pub fn ask_file_system(p: String) -> (bool, bool) {
    (path_exists(p.as_str()), path_is_dir(p.as_str()))
}

/// The `k`-th folder tried for the archive at `path`, if the file system's answers for
/// it (`present`, `is_dir`) leave it free.
pub fn dest_probe(path: &str, k: u32, present: bool, is_dir: bool) -> (r: Option<String>)
    ensures
        r is Some <==> free_answer(present, is_dir),
        r matches Some(s) ==> s@ == dest_candidate(path@, k as nat),
{
    if !present || is_dir {
        Some(default_dest_candidate(path, k))
    } else {
        None
    }
}

/// The first folder for the archive at `path` that `probe` reports free, trying
/// `dest_candidate` 0, 1, 2, ... in turn (the last one when every number up to
/// `u32::MAX` is reported taken). `probe` answers, for a path, whether something exists
/// there and whether it is a directory.
pub fn first_free_dest<F: Fn(String) -> (bool, bool)>(path: &str, probe: F) -> (r: String)
    requires
        forall|x: String| #[trigger] probe.requires((x,)),
    ensures
        exists|k: nat|
            k <= u32::MAX && r@ == dest_candidate(path@, k)
                && (forall|j: nat| j < k ==> #[trigger] reported_taken(probe, dest_candidate(path@, j)))
                && (k < u32::MAX ==> reported_free(probe, dest_candidate(path@, k))),
{
    let mut k: u32 = 0;
    loop
        invariant
            k <= u32::MAX,
            forall|x: String| #[trigger] probe.requires((x,)),
            forall|j: nat| j < k ==> #[trigger] reported_taken(probe, dest_candidate(path@, j)),
        decreases u32::MAX - k,
    {
        let candidate = default_dest_candidate(path, k);
        let asked = candidate.clone();
        let ghost g = asked;
        let (present, is_dir) = probe(asked);
        match dest_probe(path, k, present, is_dir) {
            Some(free) => {
                assert(reported_free(probe, dest_candidate(path@, k as nat)));
                return free;
            },
            None => {
                assert(reported_taken(probe, dest_candidate(path@, k as nat)));
                if k == u32::MAX {
                    return candidate;
                }
                k = k + 1;
            },
        }
    }
}

/// Default folder to extract the archive at `path` into: beside the archive, named
/// after its stem (`/home/user/archive.zip` → `/home/user/archive`).
///
/// Where that name is taken by a file (common for archives without extension, such as
/// `特典`), `_` is appended; where that is taken as well, `_2`, `_3`, ... The file system
/// is asked about each candidate in turn through `ask_file_system`: the result is the
/// first candidate it reported free, every earlier one having been reported taken (the
/// last candidate is returned when every number up to `u32::MAX` is taken).
pub fn default_dest(path: &str) -> (r: String)
    ensures
        exists|k: nat|
            k <= u32::MAX && r@ == dest_candidate(path@, k)
                && (forall|j: nat| j < k ==> #[trigger] reported_taken(ask_file_system, dest_candidate(path@, j)))
                && (k < u32::MAX ==> reported_free(ask_file_system, dest_candidate(path@, k))),
{
    first_free_dest(path, ask_file_system)
}

/// The `k`-th path that `resolve_conflict_path` tries in place of the file at `path`.
pub fn conflict_path_candidate(path: &str, k: u32) -> (r: String)
    ensures
        r@ == conflict_candidate(path@, k as nat),
{
    let (parent, stem, ext) = conflict_parts(path);
    path_join(&parent, &string_of(&conflict_name_chars(&stem, &ext, k)))
}

/// The directory of `path` (`.` when it has none) and its file name split at the last dot.
fn conflict_parts(path: &str) -> (r: (String, Vec<char>, Vec<char>))
    ensures
        r.0@ == parent_or_dot(path@),
        (r.1@, r.2@) == split_extension(file_name_of_path(path@)),
{
    let parent = match path_parent(path) {
        Some(q) => q,
        None => {
            let d = String::from_str(".");
            proof {
                reveal_strlit(".");
            }
            d
        },
    };
    let name = match path_file_name(path) {
        Some(n) => chars_of(&n),
        None => Vec::new(),
    };
    assert(name@ == file_name_of_path(path@));
    let (stem, ext) = split_name(&name);
    (parent, stem, ext)
}

/// The `k`-th path tried for the file at `path` (`path` itself for `k == 0`).
pub open spec fn conflict_choice(p: Seq<char>, k: nat) -> Seq<char> {
    if k == 0 {
        p
    } else {
        conflict_candidate(p, k)
    }
}

/// The `k`-th path tried for the file at `path`, if the file system's answers for it
/// (`present`, `is_dir`) leave it free.
pub fn conflict_probe(path: &str, k: u32, present: bool, is_dir: bool) -> (r: Option<String>)
    ensures
        r is Some <==> free_answer(present, is_dir),
        r matches Some(s) ==> s@ == conflict_choice(path@, k as nat),
{
    if !present || is_dir {
        if k == 0 {
            Some(String::from_str(path))
        } else {
            Some(conflict_path_candidate(path, k))
        }
    } else {
        None
    }
}

/// The first path for the file at `path` that `probe` reports free: `path` itself, then
/// `conflict_candidate` 1, 2, ... in turn (the last one when every number up to
/// `u32::MAX` is reported taken). `probe` answers, for a path, whether something exists
/// there and whether it is a directory.
pub fn first_free_conflict_path<F: Fn(String) -> (bool, bool)>(path: &str, probe: F) -> (r: String)
    requires
        forall|x: String| #[trigger] probe.requires((x,)),
    ensures
        exists|k: nat|
            k <= u32::MAX && r@ == conflict_choice(path@, k)
                && (forall|j: nat| j < k ==> #[trigger] reported_taken(probe, conflict_choice(path@, j)))
                && (k < u32::MAX ==> reported_free(probe, conflict_choice(path@, k))),
{
    let mut k: u32 = 0;
    loop
        invariant
            k <= u32::MAX,
            forall|x: String| #[trigger] probe.requires((x,)),
            forall|j: nat| j < k ==> #[trigger] reported_taken(probe, conflict_choice(path@, j)),
        decreases u32::MAX - k,
    {
        let candidate = if k == 0 {
            String::from_str(path)
        } else {
            conflict_path_candidate(path, k)
        };
        let asked = candidate.clone();
        let ghost g = asked;
        let (present, is_dir) = probe(asked);
        match conflict_probe(path, k, present, is_dir) {
            Some(free) => {
                assert(reported_free(probe, conflict_choice(path@, k as nat)));
                return free;
            },
            None => {
                assert(reported_taken(probe, conflict_choice(path@, k as nat)));
                if k == u32::MAX {
                    return candidate;
                }
                k = k + 1;
            },
        }
    }
}

/// A path at which a file can be written without overwriting another.
///
/// When nothing exists at `path`, or a directory does, `path` comes back unchanged.
/// Else `_1`, `_2`, ... goes before the extension of its file name (`file.txt` →
/// `file_1.txt`, `archive.tar.gz` → `archive.tar_1.gz`, `README` → `README_1`,
/// `.gitignore` → `.gitignore_1`) until a name is free. The file system is asked about
/// each candidate in turn through `ask_file_system`: the result is the first candidate
/// it reported free, every earlier one having been reported taken (the last candidate is
/// returned when every number up to `u32::MAX` is taken).
pub fn resolve_conflict_path(path: &str) -> (r: String)
    ensures
        exists|k: nat|
            k <= u32::MAX && r@ == conflict_choice(path@, k)
                && (forall|j: nat| j < k ==> #[trigger] reported_taken(ask_file_system, conflict_choice(path@, j)))
                && (k < u32::MAX ==> reported_free(ask_file_system, conflict_choice(path@, k))),
{
    first_free_conflict_path(path, ask_file_system)
}

// ---------------------------------------------------------------------------
// Laws
// ---------------------------------------------------------------------------

/// Stem and extension put back together give the file name again, and the extension is
/// empty or starts with its only `.`.
pub proof fn lemma_split_extension_parts(name: Seq<char>)
    ensures
        split_extension(name).0 + split_extension(name).1 == name,
        split_extension(name).1.len() == 0 || (split_extension(name).1[0] == '.'
            && forall|i: int| 0 < i < split_extension(name).1.len() ==> split_extension(name).1[i] != '.'),
{
    crate::text::lemma_last_index_of(name, '.');
    let (s, e) = split_extension(name);
    assert(s + e =~= name);
}

/// A file name whose last `.` stands at position `k > 0` is split there, whatever the
/// length of its extension (`report.docx`, `config.json`, `archive.tar.gz`): the `n`-th
/// name tried for it puts `_` and `n` just before that `.`.
pub proof fn lemma_conflict_name_before_last_dot(name: Seq<char>, k: int, n: nat)
    requires
        0 < k < name.len(),
        name[k] == '.',
        forall|j: int| k < j < name.len() ==> name[j] != '.',
    ensures
        split_extension(name) == (name.take(k), name.skip(k)),
        conflict_name(name, n) == name.take(k) + seq!['_'] + decimal(n) + name.skip(k),
{
    crate::text::lemma_last_index_of(name, '.');
    match last_index_of(name, '.') {
        Some(m) => {
            if m < k {
                assert(name[k] != '.');
            }
            if m > k {
                assert(name[m] != '.');
            }
        },
        None => {
            assert(name[k] != '.');
        },
    }
    assert(name.take(k).push('_') + decimal(n) + name.skip(k) =~= name.take(k) + seq!['_'] + decimal(n) + name.skip(k));
}

/// A file name with no `.` after its first character (`README`, `.gitignore`) has no
/// extension: the `n`-th name tried for it is the whole name, then `_` and `n`.
pub proof fn lemma_conflict_name_without_extension(name: Seq<char>, n: nat)
    requires
        forall|j: int| 0 < j < name.len() ==> name[j] != '.',
    ensures
        split_extension(name) == (name, Seq::<char>::empty()),
        conflict_name(name, n) == name + seq!['_'] + decimal(n),
{
    crate::text::lemma_last_index_of(name, '.');
    assert(name.push('_') + decimal(n) + Seq::<char>::empty() =~= name + seq!['_'] + decimal(n));
}

/// Distinct numbers give distinct names for a colliding file: `resolve_conflict_path`
/// never tries a name twice.
pub proof fn lemma_conflict_names_distinct(name: Seq<char>, j: nat, k: nat)
    requires
        j != k,
    ensures
        conflict_name(name, j) != conflict_name(name, k),
{
    let (s, e) = split_extension(name);
    let a = conflict_name(name, j);
    let b = conflict_name(name, k);
    if a == b {
        let lo: int = s.len() as int + 1;
        assert(decimal(j).len() == a.len() - lo - e.len());
        assert(decimal(k).len() == b.len() - lo - e.len());
        assert(a.subrange(lo, lo + decimal(j).len() as int) =~= decimal(j));
        assert(b.subrange(lo, lo + decimal(k).len() as int) =~= decimal(k));
        lemma_decimal_injective(j, k);
    }
}

/// Distinct numbers give distinct folder names: `default_dest` never tries a name twice.
pub proof fn lemma_dest_names_distinct(stem: Seq<char>, j: nat, k: nat)
    requires
        j != k,
    ensures
        dest_name(stem, j) != dest_name(stem, k),
{
    crate::text::lemma_decimal_len(j);
    crate::text::lemma_decimal_len(k);
    let a = dest_name(stem, j);
    let b = dest_name(stem, k);
    if a == b {
        if j >= 2 && k >= 2 {
            let lo: int = stem.len() as int + 1;
            assert(a.subrange(lo, a.len() as int) =~= decimal(j));
            assert(b.subrange(lo, b.len() as int) =~= decimal(k));
            lemma_decimal_injective(j, k);
        } else {
            assert(a.len() != b.len());
        }
    }
}

/// Each name tried for a colliding file keeps its extension and its stem, with `_`
/// and the number between them.
pub proof fn lemma_conflict_name_shape(name: Seq<char>, k: nat)
    ensures
        conflict_name(name, k).take(split_extension(name).0.len() as int) == split_extension(name).0,
        conflict_name(name, k)[split_extension(name).0.len() as int] == '_',
        conflict_name(name, k).skip(conflict_name(name, k).len() - split_extension(name).1.len())
            == split_extension(name).1,
{
    let (s, e) = split_extension(name);
    let c = conflict_name(name, k);
    assert(c.take(s.len() as int) =~= s);
    assert(c.skip(c.len() - e.len()) =~= e);
}

} // verus!
