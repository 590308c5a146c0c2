//! The file browser's listing of a directory: which entries are shown, their paths and
//! exclusion marks, and their order (the parent entry, then directories, then files, each by
//! name without regard to case, entries of equal rank keeping their order).
use vstd::prelude::*;
use crate::fs_tree::{FileEntry, is_path_ignored, path_ignored};
use crate::text::{
    append_chars, chars_of, lowercase, seq_eq, starts_with, starts_with_exec, string_from,
    string_of, strings_view, to_lower,
};

verus! {

/// A directory entry as read from the disk.
#[derive(Debug, Clone)]
pub struct DirItem {
    pub name: String,
    pub is_dir: bool,
    /// Size in bytes.
    pub size: u64,
    /// Modification time, as shown.
    pub mtime: String,
}

/// View of a browser entry.
#[verifier::ext_equal]
pub struct EntryV {
    pub name: Seq<char>,
    pub rel_path: Seq<char>,
    pub is_dir: bool,
    pub size: u64,
    pub mtime: Seq<char>,
    pub ignored: bool,
}

pub open spec fn entry_view(e: FileEntry) -> EntryV {
    EntryV {
        name: e.name@,
        rel_path: e.rel_path@,
        is_dir: e.is_dir,
        size: e.size,
        mtime: e.mtime@,
        ignored: e.ignored,
    }
}

pub open spec fn entries_view(s: Seq<FileEntry>) -> Seq<EntryV> {
    s.map_values(|e: FileEntry| entry_view(e))
}

pub open spec fn items_view(s: Seq<DirItem>) -> Seq<(Seq<char>, bool, u64, Seq<char>)> {
    s.map_values(|d: DirItem| (d.name@, d.is_dir, d.size, d.mtime@))
}

// ---------------------------------------------------------------------------
// Which entries are listed
// ---------------------------------------------------------------------------

/// Whether an entry of this name is listed: hidden names (starting with `.`) are not, except
/// `.nomedia`.
pub open spec fn listed_name(name: Seq<char>) -> bool {
    !(name.len() > 0 && name[0] == '.') || name == ".nomedia"@
}

/// Path of an entry named `name` in the directory `rel` (relative to the synchronised root).
pub open spec fn item_path(rel: Seq<char>, name: Seq<char>) -> Seq<char> {
    if rel.len() == 0 {
        name
    } else {
        rel + seq!['/'] + name
    }
}

/// The browser entry of a directory item, marked when a rule of `rules` excludes it.
pub open spec fn item_entry(
    rel: Seq<char>,
    it: (Seq<char>, bool, u64, Seq<char>),
    rules: Seq<Seq<char>>,
) -> EntryV {
    EntryV {
        name: it.0,
        rel_path: item_path(rel, it.0),
        is_dir: it.1,
        size: it.2,
        mtime: it.3,
        ignored: path_ignored(item_path(rel, it.0), it.1, rules),
    }
}

/// The entry that leads back to the parent directory.
pub open spec fn parent_entry() -> EntryV {
    EntryV {
        name: ".. (Dossier parent)"@,
        rel_path: ".."@,
        is_dir: true,
        size: 0,
        mtime: Seq::empty(),
        ignored: false,
    }
}

/// The entries of the listed items, in the order read.
pub open spec fn listed_items(
    rel: Seq<char>,
    items: Seq<(Seq<char>, bool, u64, Seq<char>)>,
    rules: Seq<Seq<char>>,
) -> Seq<EntryV>
    decreases items.len(),
{
    if items.len() == 0 {
        Seq::empty()
    } else {
        let r = listed_items(rel, items.drop_last(), rules);
        if listed_name(items.last().0) {
            r.push(item_entry(rel, items.last(), rules))
        } else {
            r
        }
    }
}

/// The listing before ordering: the parent entry below the root, then the listed items.
pub open spec fn unordered_listing(
    rel: Seq<char>,
    items: Seq<(Seq<char>, bool, u64, Seq<char>)>,
    rules: Seq<Seq<char>>,
) -> Seq<EntryV> {
    if rel.len() > 0 {
        seq![parent_entry()] + listed_items(rel, items, rules)
    } else {
        listed_items(rel, items, rules)
    }
}

// ---------------------------------------------------------------------------
// Order
// ---------------------------------------------------------------------------

/// Lexicographic order of character strings, by code point (the order of their UTF-8 bytes).
pub open spec fn lex_lt(a: Seq<char>, b: Seq<char>) -> bool
    decreases a.len(),
{
    if a.len() == 0 {
        b.len() > 0
    } else if b.len() == 0 {
        false
    } else if a[0] != b[0] {
        a[0] < b[0]
    } else {
        lex_lt(a.drop_first(), b.drop_first())
    }
}

/// Rank of an entry in the listing: the parent entry (named `..…`), directories, files.
pub open spec fn rank(e: EntryV) -> int {
    if starts_with(e.name, seq!['.', '.']) {
        0
    } else if e.is_dir {
        1
    } else {
        2
    }
}

/// Whether `a` is listed strictly before `b`: by rank, then by lower-cased name.
pub open spec fn before(a: EntryV, b: EntryV) -> bool {
    rank(a) < rank(b) || (rank(a) == rank(b) && rank(a) != 0 && lex_lt(
        lowercase(a.name),
        lowercase(b.name),
    ))
}

/// Whether neither of `a` and `b` goes before the other.
pub open spec fn same_place(a: EntryV, b: EntryV) -> bool {
    !before(a, b) && !before(b, a)
}

/// The listing is in order: no entry goes before an earlier one.
pub open spec fn in_order(s: Seq<EntryV>) -> bool {
    forall|i: int, j: int| 0 <= i < j < s.len() ==> !before(#[trigger] s[j], #[trigger] s[i])
}

/// The entries of `s` that take the same place as `e`, in their order in `s`.
pub open spec fn place_class(s: Seq<EntryV>, e: EntryV) -> Seq<EntryV>
    decreases s.len(),
{
    if s.len() == 0 {
        Seq::empty()
    } else {
        let r = place_class(s.drop_last(), e);
        if same_place(s.last(), e) {
            r.push(s.last())
        } else {
            r
        }
    }
}

/// `out` is `input` put in order, entries of the same place keeping their relative order (a
/// stable sort).
pub open spec fn stable_order_of(out: Seq<EntryV>, input: Seq<EntryV>) -> bool {
    &&& out.len() == input.len()
    &&& in_order(out)
    &&& forall|e: EntryV| #[trigger] place_class(out, e) == place_class(input, e)
}

// ---------------------------------------------------------------------------
// Facts about the order
// ---------------------------------------------------------------------------

proof fn lemma_lex_irreflexive(a: Seq<char>)
    ensures
        !lex_lt(a, a),
    decreases a.len(),
{
    if a.len() > 0 {
        lemma_lex_irreflexive(a.drop_first());
    }
}

proof fn lemma_lex_transitive(a: Seq<char>, b: Seq<char>, c: Seq<char>)
    requires
        lex_lt(a, b),
        lex_lt(b, c),
    ensures
        lex_lt(a, c),
    decreases a.len(),
{
    if a.len() > 0 && b.len() > 0 && c.len() > 0 {
        if a[0] == b[0] && b[0] == c[0] {
            lemma_lex_transitive(a.drop_first(), b.drop_first(), c.drop_first());
        }
    }
}

proof fn lemma_lex_total(a: Seq<char>, b: Seq<char>)
    ensures
        a == b || lex_lt(a, b) || lex_lt(b, a),
    decreases a.len(),
{
    if a.len() > 0 && b.len() > 0 {
        if a[0] == b[0] {
            lemma_lex_total(a.drop_first(), b.drop_first());
            if a.drop_first() == b.drop_first() {
                assert(a =~= seq![a[0]] + a.drop_first());
                assert(b =~= seq![b[0]] + b.drop_first());
            }
        }
    } else if a.len() == 0 && b.len() == 0 {
        assert(a =~= b);
    }
}

/// The listing order is a strict weak order: nothing goes before itself, and when `a` goes
/// before `c`, any `b` goes after `a` or before `c`.
pub proof fn law_before_strict_weak_order(a: EntryV, b: EntryV, c: EntryV)
    ensures
        !before(a, a),
        before(a, b) ==> !before(b, a),
        before(a, c) ==> before(a, b) || before(b, c),
{
    lemma_lex_irreflexive(lowercase(a.name));
    if before(a, b) && before(b, a) {
        lemma_lex_transitive(lowercase(a.name), lowercase(b.name), lowercase(a.name));
    }
    if before(a, c) && !before(a, b) && !before(b, c) {
        lemma_lex_total(lowercase(a.name), lowercase(b.name));
        lemma_lex_total(lowercase(b.name), lowercase(c.name));
        if lex_lt(lowercase(b.name), lowercase(a.name)) && lex_lt(lowercase(a.name), lowercase(c.name)) {
            lemma_lex_transitive(lowercase(b.name), lowercase(a.name), lowercase(c.name));
        }
        if lex_lt(lowercase(a.name), lowercase(c.name)) && lex_lt(lowercase(c.name), lowercase(b.name)) {
            lemma_lex_transitive(lowercase(a.name), lowercase(c.name), lowercase(b.name));
        }
    }
}

proof fn lemma_class_concat(a: Seq<EntryV>, b: Seq<EntryV>, e: EntryV)
    ensures
        place_class(a + b, e) == place_class(a, e) + place_class(b, e),
    decreases b.len(),
{
    if b.len() == 0 {
        assert(a + b =~= a);
        assert(place_class(a, e) + Seq::<EntryV>::empty() =~= place_class(a, e));
    } else {
        assert((a + b).drop_last() =~= a + b.drop_last());
        assert((a + b).last() == b.last());
        lemma_class_concat(a, b.drop_last(), e);
        if same_place(b.last(), e) {
            assert(place_class(a, e) + place_class(b.drop_last(), e).push(b.last()) =~= (
            place_class(a, e) + place_class(b.drop_last(), e)).push(b.last()));
        }
    }
}

proof fn lemma_class_none(b: Seq<EntryV>, e: EntryV)
    requires
        forall|k: int| 0 <= k < b.len() ==> !same_place(#[trigger] b[k], e),
    ensures
        place_class(b, e) == Seq::<EntryV>::empty(),
    decreases b.len(),
{
    if b.len() > 0 {
        assert(!same_place(b[b.len() - 1], e));
        lemma_class_none(b.drop_last(), e);
    }
}

proof fn lemma_class_one(x: EntryV, e: EntryV)
    ensures
        place_class(seq![x], e) == if same_place(x, e) {
            seq![x]
        } else {
            Seq::<EntryV>::empty()
        },
{
    reveal_with_fuel(place_class, 2);
    assert(seq![x].drop_last() =~= Seq::<EntryV>::empty());
    assert(seq![x].last() == x);
    assert(Seq::<EntryV>::empty().push(x) =~= seq![x]);
}

/// Inserting `x` at `p` into an ordered `s`, after every entry that does not follow `x` and
/// before every entry that does, keeps `s` in order and adds `x` at the end of its class.
proof fn lemma_insert_in_order(s: Seq<EntryV>, p: int, x: EntryV)
    requires
        in_order(s),
        0 <= p <= s.len(),
        forall|k: int| 0 <= k < p ==> !before(x, #[trigger] s[k]),
        forall|k: int| p <= k < s.len() ==> before(x, #[trigger] s[k]),
    ensures
        in_order(s.insert(p, x)),
        forall|e: EntryV|
            #[trigger] place_class(s.insert(p, x), e) == if same_place(x, e) {
                place_class(s, e).push(x)
            } else {
                place_class(s, e)
            },
{
    let t = s.insert(p, x);
    assert forall|i: int, j: int| 0 <= i < j < t.len() implies !before(#[trigger] t[j], #[trigger] t[i]) by {
        if j < p {
            assert(t[i] == s[i] && t[j] == s[j]);
        } else if j == p {
            assert(t[j] == x && t[i] == s[i]);
        } else if i == p {
            assert(t[i] == x && t[j] == s[j - 1]);
            law_before_strict_weak_order(x, s[j - 1], x);
        } else if i < p {
            assert(t[i] == s[i] && t[j] == s[j - 1]);
        } else {
            assert(t[i] == s[i - 1] && t[j] == s[j - 1]);
        }
    }
    let a = s.take(p);
    let b = s.skip(p);
    assert(t =~= a + seq![x] + b);
    assert(s =~= a + b);
    assert forall|e: EntryV| #[trigger] place_class(t, e) == if same_place(x, e) {
        place_class(s, e).push(x)
    } else {
        place_class(s, e)
    } by {
        lemma_class_concat(a + seq![x], b, e);
        lemma_class_concat(a, seq![x], e);
        lemma_class_concat(a, b, e);
        lemma_class_one(x, e);
        if same_place(x, e) {
            assert forall|k: int| 0 <= k < b.len() implies !same_place(#[trigger] b[k], e) by {
                assert(b[k] == s[p + k]);
                assert(before(x, b[k]));
                law_before_strict_weak_order(x, e, b[k]);
                law_before_strict_weak_order(e, x, b[k]);
            }
            lemma_class_none(b, e);
            assert(place_class(a, e) + Seq::<EntryV>::empty() =~= place_class(a, e));
            assert(place_class(a, e) + seq![x] + Seq::<EntryV>::empty() =~= place_class(a, e).push(
                x,
            ));
        } else {
            assert(place_class(a, e) + Seq::<EntryV>::empty() =~= place_class(a, e));
        }
    }
}

// ---------------------------------------------------------------------------
// Listing a directory
// ---------------------------------------------------------------------------

fn lex_less(a: &Vec<char>, b: &Vec<char>) -> (r: bool)
    ensures
        r == lex_lt(a@, b@),
{
    let mut i: usize = 0;
    assert(a@.skip(0) =~= a@ && b@.skip(0) =~= b@);
    while i < a.len() && i < b.len() && a[i] == b[i]
        invariant
            i <= a.len(),
            i <= b.len(),
            lex_lt(a@, b@) == lex_lt(a@.skip(i as int), b@.skip(i as int)),
        decreases a.len() - i,
    {
        assert(a@.skip(i as int).drop_first() =~= a@.skip(i + 1));
        assert(b@.skip(i as int).drop_first() =~= b@.skip(i + 1));
        i = i + 1;
    }
    if i == a.len() {
        i < b.len()
    } else if i == b.len() {
        false
    } else {
        a[i] < b[i]
    }
}

/// The sort key of an entry: its rank and lower-cased name.
struct SortKey {
    rank: u8,
    lower: Vec<char>,
}

spec fn key_of_entry(k: SortKey, e: EntryV) -> bool {
    k.rank as int == rank(e) && k.lower@ == lowercase(e.name)
}

fn sort_key(e: &FileEntry) -> (k: SortKey)
    ensures
        key_of_entry(k, entry_view(*e)),
{
    let name = chars_of(e.name.as_str());
    let dots: Vec<char> = vec!['.', '.'];
    assert(dots@ =~= seq!['.', '.']);
    let rank: u8 = if starts_with_exec(&name, &dots) {
        0
    } else if e.is_dir {
        1
    } else {
        2
    };
    SortKey { rank, lower: to_lower(&name) }
}

fn goes_before(a: &SortKey, b: &SortKey) -> (r: bool)
    ensures
        forall|x: EntryV, y: EntryV|
            #![trigger key_of_entry(*a, x), key_of_entry(*b, y)]
            key_of_entry(*a, x) && key_of_entry(*b, y) ==> r == before(x, y),
{
    a.rank < b.rank || (a.rank == b.rank && a.rank != 0 && lex_less(&a.lower, &b.lower))
}

fn clone_entry(e: &FileEntry) -> (r: FileEntry)
    ensures
        entry_view(r) == entry_view(*e),
{
    FileEntry {
        name: e.name.clone(),
        rel_path: e.rel_path.clone(),
        is_dir: e.is_dir,
        size: e.size,
        mtime: e.mtime.clone(),
        ignored: e.ignored,
    }
}

/// Puts the entries in listing order (see `stable_order_of`): the parent entry, then the
/// directories, then the files, each group by lower-cased name; entries that compare equal
/// keep their order.
pub fn sort_entries(v: &Vec<FileEntry>) -> (r: Vec<FileEntry>)
    ensures
        stable_order_of(entries_view(r@), entries_view(v@)),
{
    let mut out: Vec<FileEntry> = Vec::new();
    let mut keys: Vec<SortKey> = Vec::new();
    let mut i: usize = 0;
    let n = v.len();
    assert(entries_view(out@) =~= entries_view(v@.take(0)));
    while i < n
        invariant
            n == v.len(),
            i <= n,
            out.len() == i,
            keys.len() == i,
            forall|k: int| 0 <= k < i ==> key_of_entry(#[trigger] keys@[k], entry_view(out@[k])),
            in_order(entries_view(out@)),
            forall|e: EntryV|
                #[trigger] place_class(entries_view(out@), e) == place_class(
                    entries_view(v@.take(i as int)),
                    e,
                ),
        decreases n - i,
    {
        let x = clone_entry(&v[i]);
        let kx = sort_key(&v[i]);
        let ghost xv = entry_view(v@[i as int]);
        let mut p: usize = i;
        loop
            invariant
                p <= i,
                out.len() == i,
                keys.len() == i,
                key_of_entry(kx, xv),
                forall|k: int| 0 <= k < i ==> key_of_entry(#[trigger] keys@[k], entry_view(out@[k])),
                forall|k: int| p <= k < i ==> before(xv, #[trigger] entries_view(out@)[k]),
            ensures
                p <= i,
                forall|k: int| p <= k < i ==> before(xv, #[trigger] entries_view(out@)[k]),
                p > 0 ==> !before(xv, entries_view(out@)[p - 1]),
            decreases p,
        {
            if p == 0 {
                break;
            }
            let b = goes_before(&kx, &keys[p - 1]);
            assert(key_of_entry(keys@[p - 1], entry_view(out@[p - 1])));
            assert(entries_view(out@)[p - 1] == entry_view(out@[p - 1]));
            if !b {
                break;
            }
            p = p - 1;
        }
        proof {
            let s = entries_view(out@);
            assert forall|k: int| 0 <= k < p implies !before(xv, #[trigger] s[k]) by {
                if k < p - 1 {
                    assert(!before(s[p - 1], s[k]));
                    law_before_strict_weak_order(xv, s[p - 1], s[k]);
                }
            }
            lemma_insert_in_order(s, p as int, xv);
        }
        let ghost old_out = out@;
        let ghost old_keys = keys@;
        out.insert(p, x);
        keys.insert(p, kx);
        proof {
            assert(entries_view(out@) =~= entries_view(old_out).insert(p as int, xv));
            let s2 = entries_view(v@.take(i + 1));
            assert(s2.drop_last() =~= entries_view(v@.take(i as int)));
            assert(s2.last() == xv);
            assert forall|e: EntryV| #[trigger] place_class(entries_view(out@), e) == place_class(
                entries_view(v@.take(i + 1)),
                e,
            ) by {
                assert(place_class(s2, e) == if same_place(xv, e) {
                    place_class(entries_view(v@.take(i as int)), e).push(xv)
                } else {
                    place_class(entries_view(v@.take(i as int)), e)
                });
            }
            assert forall|k: int| 0 <= k < i + 1 implies key_of_entry(
                #[trigger] keys@[k],
                entry_view(out@[k]),
            ) by {
                if k < p {
                    assert(keys@[k] == old_keys[k] && out@[k] == old_out[k]);
                } else if k == p {
                    assert(keys@[k] == kx && out@[k] == x);
                } else {
                    assert(keys@[k] == old_keys[k - 1] && out@[k] == old_out[k - 1]);
                }
            }
        }
        i = i + 1;
    }
    assert(v@.take(n as int) =~= v@);
    out
}

fn listed_name_exec(name: &Vec<char>) -> (r: bool)
    ensures
        r == listed_name(name@),
{
    !(name.len() > 0 && name[0] == '.') || seq_eq(name, &chars_of(".nomedia"))
}

fn item_path_exec(rel: &Vec<char>, name: &Vec<char>) -> (r: Vec<char>)
    ensures
        r@ == item_path(rel@, name@),
{
    if rel.len() == 0 {
        let mut v: Vec<char> = Vec::new();
        append_chars(&mut v, name);
        assert(Seq::<char>::empty() + name@ =~= name@);
        v
    } else {
        let mut v: Vec<char> = Vec::new();
        append_chars(&mut v, rel);
        v.push('/');
        append_chars(&mut v, name);
        assert(Seq::<char>::empty() + rel@ =~= rel@);
        v
    }
}

/// The entries of the directory `rel` (relative to the synchronised root) read from the
/// disk as `items`: hidden names left out (`.nomedia` excepted), the parent entry added below
/// the root, each entry marked when a rule of `filters` excludes it, all put in listing order
/// (see `stable_order_of`).
pub fn directory_listing(rel: &str, items: &Vec<DirItem>, filters: &[String]) -> (r: Vec<FileEntry>)
    ensures
        stable_order_of(
            entries_view(r@),
            unordered_listing(rel@, items_view(items@), strings_view(filters@)),
        ),
{
    let relv = chars_of(rel);
    let mut entries: Vec<FileEntry> = Vec::new();
    if relv.len() > 0 {
        entries.push(
            FileEntry {
                name: string_from(".. (Dossier parent)"),
                rel_path: string_from(".."),
                is_dir: true,
                size: 0,
                mtime: String::new(),
                ignored: false,
            },
        );
    }
    let ghost head: Seq<EntryV> = if rel@.len() > 0 {
        seq![parent_entry()]
    } else {
        Seq::empty()
    };
    let ghost iv = items_view(items@);
    let ghost rules = strings_view(filters@);
    assert(entries_view(entries@) =~= head + listed_items(rel@, iv.take(0), rules));
    let mut i: usize = 0;
    while i < items.len()
        invariant
            i <= items.len(),
            relv@ == rel@,
            iv == items_view(items@),
            rules == strings_view(filters@),
            entries_view(entries@) == head + listed_items(rel@, iv.take(i as int), rules),
        decreases items.len() - i,
    {
        let it = &items[i];
        let name = chars_of(it.name.as_str());
        assert(iv.take(i + 1).drop_last() =~= iv.take(i as int));
        assert(iv.take(i + 1).last() == iv[i as int]);
        if listed_name_exec(&name) {
            let path = item_path_exec(&relv, &name);
            let path_s = string_of(&path);
            let ignored = is_path_ignored(path_s.as_str(), it.is_dir, filters);
            let e = FileEntry {
                name: it.name.clone(),
                rel_path: path_s,
                is_dir: it.is_dir,
                size: it.size,
                mtime: it.mtime.clone(),
                ignored,
            };
            let ghost before_entries = entries@;
            entries.push(e);
            assert(entries_view(entries@) =~= entries_view(before_entries).push(
                item_entry(rel@, iv[i as int], rules),
            ));
        }
        i = i + 1;
    }
    assert(iv.take(items.len() as int) =~= iv);
    sort_entries(&entries)
}

/// In a listing in order, the parent entry comes first, then the directories, then the
/// files; within directories and within files, lower-cased names never decrease.
pub proof fn law_listing_groups_and_names(s: Seq<EntryV>, i: int, j: int)
    requires
        in_order(s),
        0 <= i < j < s.len(),
    ensures
        rank(s[i]) <= rank(s[j]),
        rank(s[i]) == rank(s[j]) && rank(s[i]) != 0 ==> !lex_lt(
            lowercase(s[j].name),
            lowercase(s[i].name),
        ),
{
}

proof fn lemma_class_has_member(s: Seq<EntryV>, e: EntryV)
    requires
        place_class(s, e).len() > 0,
    ensures
        exists|k: int| 0 <= k < s.len() && same_place(#[trigger] s[k], e),
    decreases s.len(),
{
    if s.len() > 0 {
        if same_place(s.last(), e) {
            assert(same_place(s[s.len() - 1], e));
        } else {
            lemma_class_has_member(s.drop_last(), e);
            let k = choose|k: int| 0 <= k < s.drop_last().len() && same_place(#[trigger] s.drop_last()[k], e);
            assert(s[k] == s.drop_last()[k]);
        }
    }
}

/// The last entries of two stable orderings of the same entries take the same place.
proof fn lemma_last_places(a: Seq<EntryV>, b: Seq<EntryV>)
    requires
        a.len() == b.len(),
        a.len() > 0,
        in_order(a),
        in_order(b),
        forall|e: EntryV| #[trigger] place_class(a, e) == place_class(b, e),
    ensures
        same_place(a.last(), b.last()),
{
    let x = a.last();
    let y = b.last();
    if before(x, y) {
        assert(place_class(b, y) == place_class(b.drop_last(), y).push(y)) by {
            law_before_strict_weak_order(y, y, y);
        }
        assert(place_class(a, y).len() > 0);
        lemma_class_has_member(a, y);
        let k = choose|k: int| 0 <= k < a.len() && same_place(#[trigger] a[k], y);
        law_before_strict_weak_order(x, a[k], y);
        if k < a.len() - 1 {
            assert(!before(a[a.len() - 1], a[k]));
        } else {
            law_before_strict_weak_order(x, x, x);
        }
    }
    if before(y, x) {
        assert(place_class(a, x) == place_class(a.drop_last(), x).push(x)) by {
            law_before_strict_weak_order(x, x, x);
        }
        assert(place_class(b, x).len() > 0);
        lemma_class_has_member(b, x);
        let k = choose|k: int| 0 <= k < b.len() && same_place(#[trigger] b[k], x);
        law_before_strict_weak_order(y, b[k], x);
        if k < b.len() - 1 {
            assert(!before(b[b.len() - 1], b[k]));
        } else {
            law_before_strict_weak_order(y, y, y);
        }
    }
}

proof fn lemma_same_place_equiv(x: EntryV, y: EntryV, e: EntryV)
    requires
        same_place(x, y),
    ensures
        same_place(x, e) == same_place(y, e),
{
    law_before_strict_weak_order(x, y, e);
    law_before_strict_weak_order(y, x, e);
    law_before_strict_weak_order(e, x, y);
    law_before_strict_weak_order(e, y, x);
}

/// Two stable orderings of the same entries are the same sequence: the listing order is fully
/// determined.
pub proof fn law_stable_order_unique(a: Seq<EntryV>, b: Seq<EntryV>, input: Seq<EntryV>)
    requires
        stable_order_of(a, input),
        stable_order_of(b, input),
    ensures
        a == b,
    decreases a.len(),
{
    if a.len() == 0 {
        assert(a =~= b);
    } else {
        lemma_last_places(a, b);
        let x = a.last();
        let y = b.last();
        law_before_strict_weak_order(x, x, x);
        law_before_strict_weak_order(y, y, y);
        assert(place_class(a, x) == place_class(a.drop_last(), x).push(x));
        lemma_same_place_equiv(x, y, x);
        assert(place_class(b, x) == place_class(b.drop_last(), x).push(y));
        assert(place_class(a, x) == place_class(b, x));
        assert(place_class(a, x).last() == x);
        assert(place_class(b, x).last() == y);
        assert(x == y);
        let a2 = a.drop_last();
        let b2 = b.drop_last();
        assert forall|i: int, j: int| 0 <= i < j < a2.len() implies !before(#[trigger] a2[j], #[trigger] a2[i]) by {
            assert(a2[i] == a[i] && a2[j] == a[j]);
        }
        assert forall|i: int, j: int| 0 <= i < j < b2.len() implies !before(#[trigger] b2[j], #[trigger] b2[i]) by {
            assert(b2[i] == b[i] && b2[j] == b[j]);
        }
        assert forall|e: EntryV| #[trigger] place_class(a2, e) == place_class(b2, e) by {
            assert(place_class(a, e) == place_class(b, e));
            if same_place(x, e) {
                assert(place_class(a2, e) =~= place_class(a, e).drop_last());
                assert(place_class(b2, e) =~= place_class(b, e).drop_last());
            }
        }
        law_stable_order_unique(a2, b2, a2);
        assert(a =~= a2.push(x));
        assert(b =~= b2.push(y));
    }
}

} // verus!
