//! Entries of the local file browser and the rclone exclusion rules that hide some of them.
use vstd::prelude::*;
use crate::text::{
    chars_of, ends_with, ends_with_exec, seq_eq, starts_with, starts_with_exec, string_of,
    strings_view, trim, trim_exec,
};

verus! {

/// An entry of the local file browser.
#[derive(Debug, Clone)]
pub struct FileEntry {
    pub name: String,
    /// Path relative to the synchronised directory.
    pub rel_path: String,
    pub is_dir: bool,
    /// Size in bytes.
    pub size: u64,
    pub mtime: String,
    /// Whether an exclusion rule hides the entry from synchronisation.
    pub ignored: bool,
}

/// `s` without its leading `/` characters (`trim_start_matches('/')`).
pub open spec fn strip_leading_slashes(s: Seq<char>) -> Seq<char>
    decreases s.len(),
{
    if s.len() > 0 && s[0] == '/' {
        strip_leading_slashes(s.drop_first())
    } else {
        s
    }
}

/// A relative path in the form rules are written: one leading `/`.
pub open spec fn rooted(rel: Seq<char>) -> Seq<char> {
    seq!['/'] + strip_leading_slashes(rel)
}

/// Whether rule `rule` excludes the rooted path `p`. Only `-` rules exclude; their pattern
/// is a directory (`dir/**`, a prefix), an extension (`*.ext`, a suffix), or an exact path,
/// which also excludes what lies below it when `p` is a directory.
pub open spec fn rule_excludes(rule: Seq<char>, p: Seq<char>, is_dir: bool) -> bool {
    let t = trim(rule);
    if t.len() > 0 && t[0] == '-' {
        let pat = trim(t.skip(1));
        if ends_with(pat, seq!['/', '*', '*']) {
            starts_with(p, pat.take(pat.len() - 3))
        } else if starts_with(pat, seq!['*', '.']) {
            ends_with(p, pat.skip(1))
        } else {
            pat == p || (is_dir && starts_with(p, pat))
        }
    } else {
        false
    }
}

/// Whether one of `rules` excludes the relative path `rel`.
pub open spec fn path_ignored(rel: Seq<char>, is_dir: bool, rules: Seq<Seq<char>>) -> bool {
    exists|i: int| 0 <= i < rules.len() && rule_excludes(rules[i], rooted(rel), is_dir)
}

fn rooted_exec(rel: &str) -> (r: Vec<char>)
    ensures
        r@ == rooted(rel@),
{
    let c = chars_of(rel);
    let mut a: usize = 0;
    assert(c@.skip(0) =~= c@);
    while a < c.len() && c[a] == '/'
        invariant
            a <= c.len(),
            strip_leading_slashes(c@) == strip_leading_slashes(c@.skip(a as int)),
        decreases c.len() - a,
    {
        assert(c@.skip(a as int).drop_first() =~= c@.skip(a + 1));
        a = a + 1;
    }
    let mut v: Vec<char> = Vec::new();
    v.push('/');
    let mut k: usize = a;
    while k < c.len()
        invariant
            a <= k <= c.len(),
            v@ == seq!['/'] + c@.subrange(a as int, k as int),
        decreases c.len() - k,
    {
        v.push(c[k]);
        assert(c@.subrange(a as int, k + 1) =~= c@.subrange(a as int, k as int).push(c@[k as int]));
        k = k + 1;
    }
    assert(c@.subrange(a as int, c.len() as int) =~= c@.skip(a as int));
    v
}

fn skip_exec(v: &Vec<char>, from: usize) -> (r: Vec<char>)
    requires
        from <= v.len(),
    ensures
        r@ == v@.skip(from as int),
{
    let mut out: Vec<char> = Vec::new();
    let mut k: usize = from;
    while k < v.len()
        invariant
            from <= k <= v.len(),
            out@ == v@.subrange(from as int, k as int),
        decreases v.len() - k,
    {
        out.push(v[k]);
        assert(v@.subrange(from as int, k + 1) =~= v@.subrange(from as int, k as int).push(v@[k as int]));
        k = k + 1;
    }
    out
}

fn take_exec(v: &Vec<char>, n: usize) -> (r: Vec<char>)
    requires
        n <= v.len(),
    ensures
        r@ == v@.take(n as int),
{
    let mut out: Vec<char> = Vec::new();
    let mut k: usize = 0;
    while k < n
        invariant
            k <= n <= v.len(),
            out@ == v@.take(k as int),
        decreases n - k,
    {
        out.push(v[k]);
        assert(v@.take(k + 1) =~= v@.take(k as int).push(v@[k as int]));
        k = k + 1;
    }
    out
}

fn rule_excludes_exec(rule: &str, p: &Vec<char>, is_dir: bool) -> (r: bool)
    ensures
        r == rule_excludes(rule@, p@, is_dir),
{
    let t = trim_exec(&chars_of(rule));
    if !(t.len() > 0 && t[0] == '-') {
        return false;
    }
    let pat = trim_exec(&skip_exec(&t, 1));
    let dir_suffix: Vec<char> = vec!['/', '*', '*'];
    let ext_prefix: Vec<char> = vec!['*', '.'];
    assert(dir_suffix@ =~= seq!['/', '*', '*']);
    assert(ext_prefix@ =~= seq!['*', '.']);
    if ends_with_exec(&pat, &dir_suffix) {
        let dir_pat = take_exec(&pat, pat.len() - 3);
        starts_with_exec(p, &dir_pat)
    } else if starts_with_exec(&pat, &ext_prefix) {
        let ext = skip_exec(&pat, 1);
        ends_with_exec(p, &ext)
    } else {
        seq_eq(&pat, p) || (is_dir && starts_with_exec(p, &pat))
    }
}

/// Whether an exclusion rule among `filters` hides the relative path `rel_path`.
pub fn is_path_ignored(rel_path: &str, is_dir: bool, filters: &[String]) -> (r: bool)
    ensures
        r == path_ignored(rel_path@, is_dir, strings_view(filters@)),
{
    let p = rooted_exec(rel_path);
    let mut i: usize = 0;
    while i < filters.len()
        invariant
            i <= filters.len(),
            p@ == rooted(rel_path@),
            forall|j: int|
                0 <= j < i ==> !rule_excludes(#[trigger] strings_view(filters@)[j], p@, is_dir),
        decreases filters.len() - i,
    {
        if rule_excludes_exec(filters[i].as_str(), &p, is_dir) {
            assert(rule_excludes(strings_view(filters@)[i as int], rooted(rel_path@), is_dir));
            return true;
        }
        i = i + 1;
    }
    false
}

/// The rule that excludes an entry: its subtree for a directory, the file itself otherwise.
pub open spec fn exclude_rule(rel: Seq<char>, is_dir: bool) -> Seq<char> {
    if is_dir {
        "- /"@ + rel + "/**\n"@
    } else {
        "- /"@ + rel + "\n"@
    }
}

/// The line appended to the rules file to exclude an entry.
pub fn exclude_rule_line(rel_path: &str, is_dir: bool) -> (r: String)
    ensures
        r@ == exclude_rule(rel_path@, is_dir),
{
    let mut v: Vec<char> = Vec::new();
    crate::text::append_str(&mut v, "- /");
    crate::text::append_str(&mut v, rel_path);
    if is_dir {
        crate::text::append_str(&mut v, "/**\n");
    } else {
        crate::text::append_str(&mut v, "\n");
    }
    string_of(&v)
}

// ---------------------------------------------------------------------------
// Moving in the browser
// ---------------------------------------------------------------------------

/// What `std::path::Path::parent` gives for a path: the path without its final component.
pub uninterp spec fn parent_of(path: Seq<char>) -> Option<Seq<char>>;

/// `Path::parent` on a relative path, as text: the path without its final component; none for
/// the empty path (also for a path ending in a root, which the documentation names without
/// saying more).
#[verifier::external_body]
fn path_parent(path: &str) -> (r: Option<String>)
    ensures
        opt_string_view(r) == parent_of(path@),
        path@.len() == 0 ==> r is None,
{
    match std::path::Path::new(path).parent() {
        Some(p) => Some(p.to_string_lossy().to_string()),
        None => None,
    }
}

/// The view of an optional string.
pub open spec fn opt_string_view(o: Option<String>) -> Option<Seq<char>> {
    match o {
        Some(s) => Some(s@),
        None => None,
    }
}

/// The browsed directory after going up from `rel`: its parent, the root (`""`) when it has
/// none; nothing to do at the root itself.
pub open spec fn parent_dir_of(rel: Seq<char>) -> Option<Seq<char>> {
    if rel.len() == 0 {
        None
    } else {
        match parent_of(rel) {
            Some(p) => Some(p),
            None => Some(Seq::empty()),
        }
    }
}

/// The directory to browse after going up from `rel` (see `parent_dir_of`); the caller then
/// selects the first entry and reloads.
pub fn parent_file_dir(rel: &str) -> (r: Option<String>)
    ensures
        opt_string_view(r) == parent_dir_of(rel@),
{
    if chars_of(rel).len() == 0 {
        return None;
    }
    match path_parent(rel) {
        Some(p) => Some(p),
        None => Some(String::new()),
    }
}

/// What opening an entry of the browser does.
#[derive(Debug, Clone, Copy, PartialEq, Eq, Structural)]
pub enum EntryOpening {
    /// Go up to the parent directory.
    GoToParent,
    /// Browse into the directory.
    EnterDirectory,
    /// Open the file with the desktop's application.
    OpenFile,
    /// Open the folder that holds the file.
    OpenFolder,
}

/// What opening `e` does: the parent entry (named `..…`) goes up, a directory is entered,
/// a file is opened, or its folder in folder mode.
pub open spec fn opening_of(e: FileEntry, folder_mode: bool) -> EntryOpening {
    if starts_with(e.name@, seq!['.', '.']) {
        EntryOpening::GoToParent
    } else if e.is_dir {
        EntryOpening::EnterDirectory
    } else if folder_mode {
        EntryOpening::OpenFolder
    } else {
        EntryOpening::OpenFile
    }
}

/// What opening the entry `e` does (see `opening_of`).
pub fn entry_opening(e: &FileEntry, folder_mode: bool) -> (r: EntryOpening)
    ensures
        r == opening_of(*e, folder_mode),
{
    let dots: Vec<char> = vec!['.', '.'];
    assert(dots@ =~= seq!['.', '.']);
    if starts_with_exec(&chars_of(e.name.as_str()), &dots) {
        EntryOpening::GoToParent
    } else if e.is_dir {
        EntryOpening::EnterDirectory
    } else if folder_mode {
        EntryOpening::OpenFolder
    } else {
        EntryOpening::OpenFile
    }
}

/// The selection after the entries were reloaded: back to the first entry when it no longer
/// designates one.
pub fn clamp_file_selection(selected: usize, len: usize) -> (r: usize)
    ensures
        r == if selected < len {
            selected
        } else {
            0
        },
{
    if selected >= len {
        0
    } else {
        selected
    }
}

/// Number of files (not directories) among `entries`.
pub open spec fn file_count(entries: Seq<FileEntry>) -> nat
    decreases entries.len(),
{
    if entries.len() == 0 {
        0
    } else {
        file_count(entries.drop_last()) + if entries.last().is_dir {
            0nat
        } else {
            1nat
        }
    }
}

/// The number of tracked files shown: the count from the last scan when there is one, else
/// the files of the browsed directory.
pub fn get_tracked_files_count(scanned: usize, entries: &Vec<FileEntry>) -> (r: usize)
    ensures
        r == if scanned > 0 {
            scanned as int
        } else {
            file_count(entries@) as int
        },
{
    if scanned > 0 {
        return scanned;
    }
    let mut n: usize = 0;
    let mut i: usize = 0;
    while i < entries.len()
        invariant
            i <= entries.len(),
            n == file_count(entries@.take(i as int)),
            n <= i,
        decreases entries.len() - i,
    {
        assert(entries@.take(i + 1).drop_last() =~= entries@.take(i as int));
        if !entries[i].is_dir {
            n = n + 1;
        }
        i = i + 1;
    }
    assert(entries@.take(entries.len() as int) =~= entries@);
    n
}

} // verus!
