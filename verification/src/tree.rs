//! The directory tree shown to the client: which directories are listed,
//! in which order, and what the tree built from their listings holds.

use crate::shell_rpc::{
    is_dot_entry, is_pruned, is_skipped_name, item_views, tree_root, DirItem,
};
use crate::text::{
    chars_of, decimal, lemma_text_lt_asymmetric, lemma_text_lt_irreflexive,
    lemma_text_lt_total, lemma_text_lt_transitive, opt_text, pair_texts, push_decimal, push_str,
    rank_text, same_text, string_of, text_lt, texts, Rank,
};
use vstd::prelude::*;

verus! {

/// How deep below the starting directory the tree view lists directories.
pub const DEFAULT_MAX_DEPTH: u32 = 3;

/// A directory with more files than this shows only the first of them.
pub const FILE_LIMIT: usize = 15;

/// The number of files that such a directory shows.
pub const FILES_SHOWN: usize = 10;

/// One directory of the tree: its subdirectories by name, each with its own
/// tree, and the files it shows, each as its absolute path and its name.
#[derive(Debug, PartialEq, Eq)]
pub struct TreeNode {
    pub dirs: Vec<(String, TreeNode)>,
    pub files: Vec<(String, String)>,
}

/// A `TreeNode` over plain sequences.
pub struct TreeView {
    pub dirs: Seq<(Seq<char>, TreeView)>,
    pub files: Seq<(Seq<char>, Seq<char>)>,
}

/// The tree of a directory that holds nothing.
pub open spec fn empty_tree() -> TreeView {
    TreeView { dirs: Seq::empty(), files: Seq::empty() }
}

impl View for TreeNode {
    type V = TreeView;

    open spec fn view(&self) -> TreeView
        decreases self,
    {
        TreeView {
            dirs: Seq::new(
                self.dirs@.len(),
                |i: int|
                    if 0 <= i < self.dirs@.len() {
                        (self.dirs@[i].0@, self.dirs@[i].1.view())
                    } else {
                        (Seq::empty(), empty_tree())
                    },
            ),
            files: Seq::new(self.files@.len(), |i: int| (self.files@[i].0@, self.files@[i].1@)),
        }
    }
}

/// Each item of `s` comes before every later one in the order of texts.
pub open spec fn strictly_sorted(s: Seq<Seq<char>>) -> bool {
    forall|i: int, j: int| 0 <= i < j < s.len() ==> text_lt(#[trigger] s[i], #[trigger] s[j])
}

/// The sorted sequence `s` with `x` put at its place; `s` itself where it
/// holds `x` already.
pub open spec fn insert_sorted(s: Seq<Seq<char>>, x: Seq<char>) -> Seq<Seq<char>>
    decreases s.len(),
{
    if s.len() == 0 {
        seq![x]
    } else if x == s[0] {
        s
    } else if text_lt(x, s[0]) {
        seq![x] + s
    } else {
        seq![s[0]] + insert_sorted(s.drop_first(), x)
    }
}

/// The items of `names` in the order of texts, each once.
pub open spec fn sorted_from(names: Seq<Seq<char>>) -> Seq<Seq<char>>
    decreases names.len(),
{
    if names.len() == 0 {
        Seq::empty()
    } else {
        insert_sorted(sorted_from(names.drop_last()), names.last())
    }
}

/// Putting `x` into a sorted sequence gives a sorted sequence that holds
/// `x` and what the sequence held, and nothing else.
pub proof fn lemma_insert_sorted(s: Seq<Seq<char>>, x: Seq<char>)
    requires
        strictly_sorted(s),
    ensures
        strictly_sorted(insert_sorted(s, x)),
        forall|y: Seq<char>| insert_sorted(s, x).contains(y) <==> (y == x || s.contains(y)),
    decreases s.len(),
{
    let r = insert_sorted(s, x);
    if s.len() == 0 {
        assert(r[0] == x);
        assert forall|y: Seq<char>| r.contains(y) <==> (y == x || s.contains(y)) by {
            if y == x {
                assert(r[0] == y);
            }
        }
    } else if x == s[0] {
        assert forall|y: Seq<char>| r.contains(y) <==> (y == x || s.contains(y)) by {
            if y == x {
                assert(s[0] == y);
            }
        }
    } else if text_lt(x, s[0]) {
        assert forall|i: int, j: int| 0 <= i < j < r.len() implies text_lt(
            #[trigger] r[i],
            #[trigger] r[j],
        ) by {
            if i == 0 {
                if j > 1 {
                    assert(r[j] == s[j - 1]);
                    assert(text_lt(s[0], s[j - 1]));
                    lemma_text_lt_transitive(x, s[0], s[j - 1]);
                }
            } else {
                assert(r[i] == s[i - 1] && r[j] == s[j - 1]);
            }
        }
        assert forall|y: Seq<char>| r.contains(y) <==> (y == x || s.contains(y)) by {
            if y == x {
                assert(r[0] == y);
            }
            if s.contains(y) {
                let k = choose|k: int| 0 <= k < s.len() && s[k] == y;
                assert(r[k + 1] == y);
            }
            if r.contains(y) {
                let k = choose|k: int| 0 <= k < r.len() && r[k] == y;
                if k > 0 {
                    assert(s[k - 1] == y);
                }
            }
        }
    } else {
        let t = s.drop_first();
        assert(strictly_sorted(t)) by {
            assert forall|i: int, j: int| 0 <= i < j < t.len() implies text_lt(
                #[trigger] t[i],
                #[trigger] t[j],
            ) by {
                assert(t[i] == s[i + 1] && t[j] == s[j + 1]);
            }
        }
        lemma_insert_sorted(t, x);
        let u = insert_sorted(t, x);
        lemma_text_lt_total(x, s[0]);
        assert forall|i: int, j: int| 0 <= i < j < r.len() implies text_lt(
            #[trigger] r[i],
            #[trigger] r[j],
        ) by {
            if i == 0 {
                assert(r[j] == u[j - 1]);
                assert(u.contains(u[j - 1]));
                if u[j - 1] != x {
                    assert(t.contains(u[j - 1]));
                    let k = choose|k: int| 0 <= k < t.len() && t[k] == u[j - 1];
                    assert(t[k] == s[k + 1]);
                    assert(text_lt(s[0], s[k + 1]));
                }
            } else {
                assert(r[i] == u[i - 1] && r[j] == u[j - 1]);
            }
        }
        assert forall|y: Seq<char>| r.contains(y) <==> (y == x || s.contains(y)) by {
            if r.contains(y) {
                let k = choose|k: int| 0 <= k < r.len() && r[k] == y;
                if k > 0 {
                    assert(u[k - 1] == y);
                    assert(u.contains(y));
                    if y != x {
                        assert(t.contains(y));
                        let m = choose|m: int| 0 <= m < t.len() && t[m] == y;
                        assert(s[m + 1] == y);
                        assert(s.contains(y));
                    }
                } else {
                    assert(s[0] == y);
                    assert(s.contains(y));
                }
            }
            if y == x {
                assert(u.contains(y));
                let k = choose|k: int| 0 <= k < u.len() && u[k] == y;
                assert(r[k + 1] == y);
                assert(r.contains(y));
            }
            if s.contains(y) {
                let k = choose|k: int| 0 <= k < s.len() && s[k] == y;
                if k > 0 {
                    assert(t[k - 1] == y);
                    assert(t.contains(y));
                    assert(u.contains(y));
                    let m = choose|m: int| 0 <= m < u.len() && u[m] == y;
                    assert(r[m + 1] == y);
                    assert(r.contains(y));
                } else {
                    assert(r[0] == y);
                    assert(r.contains(y));
                }
            }
        }
    }
}

/// `sorted_from` gives the names in the order of texts, each once: it is
/// sorted, and it holds exactly the names given.
pub proof fn lemma_sorted_from(names: Seq<Seq<char>>)
    ensures
        strictly_sorted(sorted_from(names)),
        forall|y: Seq<char>| sorted_from(names).contains(y) <==> names.contains(y),
    decreases names.len(),
{
    if names.len() > 0 {
        let rest = names.drop_last();
        lemma_sorted_from(rest);
        lemma_insert_sorted(sorted_from(rest), names.last());
        assert forall|y: Seq<char>| sorted_from(names).contains(y) <==> names.contains(y) by {
            if names.contains(y) {
                let k = choose|k: int| 0 <= k < names.len() && names[k] == y;
                if k < rest.len() {
                    assert(rest[k] == y);
                }
            }
            if rest.contains(y) {
                let k = choose|k: int| 0 <= k < rest.len() && rest[k] == y;
                assert(names[k] == y);
            }
            if y == names.last() {
                assert(names[names.len() - 1] == y);
            }
        }
    }
}

/// Where every item of `s` before `i` comes before `x`, and the item at
/// `i`, if any, is `x` or comes after it, `insert_sorted` puts `x` at `i`,
/// or leaves `s` as it is where `x` stands there.
proof fn lemma_insert_sorted_at(s: Seq<Seq<char>>, x: Seq<char>, i: int)
    requires
        0 <= i <= s.len(),
        forall|k: int| 0 <= k < i ==> text_lt(#[trigger] s[k], x),
        i < s.len() ==> s[i] == x || text_lt(x, s[i]),
    ensures
        insert_sorted(s, x) == (if i < s.len() && s[i] == x {
            s
        } else {
            s.insert(i, x)
        }),
    decreases i,
{
    if i == 0 {
        if s.len() == 0 {
            assert(seq![x] =~= s.insert(0, x));
        } else if s[0] != x {
            assert(seq![x] + s =~= s.insert(0, x));
        }
    } else {
        let t = s.drop_first();
        assert(text_lt(s[0], x));
        lemma_text_lt_asymmetric(s[0], x);
        lemma_text_lt_irreflexive(x);
        assert forall|k: int| 0 <= k < i - 1 implies text_lt(#[trigger] t[k], x) by {
            assert(t[k] == s[k + 1]);
        }
        if i < s.len() {
            assert(t[i - 1] == s[i]);
        }
        lemma_insert_sorted_at(t, x, i - 1);
        if i < s.len() && s[i] == x {
            assert(seq![s[0]] + t =~= s);
        } else {
            assert(seq![s[0]] + t.insert(i - 1, x) =~= s.insert(i, x));
        }
    }
}

/// Puts `name` at its place in the sorted `names`, unless it is there.
fn insert_name(names: &mut Vec<String>, name: &str)
    ensures
        texts(final(names)@) == insert_sorted(texts(old(names)@), name@),
{
    let ghost before = texts(names@);
    let mut i: usize = 0;
    while i < names.len()
        invariant
            i <= names.len(),
            names@ == old(names)@,
            before == texts(names@),
            forall|k: int| 0 <= k < i ==> text_lt(#[trigger] before[k], name@),
        decreases names.len() - i,
    {
        assert(before[i as int] == names@[i as int]@);
        match rank_text(names[i].as_str(), name) {
            Rank::Before => {},
            Rank::Same => {
                proof {
                    lemma_insert_sorted_at(before, name@, i as int);
                }
                return ;
            },
            Rank::After => {
                proof {
                    lemma_insert_sorted_at(before, name@, i as int);
                }
                names.insert(i, name.to_owned());
                assert(texts(names@) =~= before.insert(i as int, name@));
                return ;
            },
        }
        i += 1;
    }
    proof {
        lemma_insert_sorted_at(before, name@, i as int);
    }
    names.push(name.to_owned());
    assert(texts(names@) =~= before.insert(i as int, name@));
}

/// The names of the items of `items` that are directories, if `dirs`, or
/// that are files, if not, in the order of the listing. The two entries
/// that every directory has and the names that the tree view prunes are
/// left out.
pub open spec fn names_of_kind(items: Seq<(Seq<char>, bool)>, dirs: bool) -> Seq<Seq<char>>
    decreases items.len(),
{
    if items.len() == 0 {
        Seq::empty()
    } else {
        let rest = names_of_kind(items.drop_last(), dirs);
        let name = items.last().0;
        if items.last().1 == dirs && !is_dot_entry(name) && !is_pruned(name) {
            rest.push(name)
        } else {
            rest
        }
    }
}

/// The names of one kind among `items`, in the order of texts, each once.
fn sorted_names(items: &Vec<DirItem>, dirs: bool) -> (r: Vec<String>)
    ensures
        texts(r@) == sorted_from(names_of_kind(item_views(items@), dirs)),
{
    let mut r: Vec<String> = Vec::new();
    let ghost all = item_views(items@);
    let mut i: usize = 0;
    assert(texts(r@) =~= sorted_from(names_of_kind(all.take(0), dirs)));
    while i < items.len()
        invariant
            i <= items.len(),
            all == item_views(items@),
            texts(r@) == sorted_from(names_of_kind(all.take(i as int), dirs)),
        decreases items.len() - i,
    {
        proof {
            assert(all.take(i + 1).drop_last() =~= all.take(i as int));
            assert(all.take(i + 1).last() == items@[i as int]@);
        }
        let name = chars_of(items[i].name.as_str());
        if items[i].is_dir == dirs && !is_skipped_name(&name) {
            proof {
                let shorter = names_of_kind(all.take(i as int), dirs);
                let longer = names_of_kind(all.take(i + 1), dirs);
                assert(longer == shorter.push(items@[i as int].name@));
                assert(longer.drop_last() =~= shorter);
            }
            insert_name(&mut r, items[i].name.as_str());
        }
        i += 1;
    }
    assert(all.take(items.len() as int) =~= all);
    r
}

/// The path of the entry `name` of the directory `path`.
pub open spec fn child_path(path: Seq<char>, name: Seq<char>) -> Seq<char> {
    path + seq!['/'] + name
}

/// The path of the entry `name` of the directory `path`.
pub fn join_path(path: &str, name: &str) -> (r: String)
    ensures
        r@ == child_path(path@, name@),
{
    let mut v = chars_of(path);
    v.push('/');
    push_str(&mut v, name);
    string_of(&v)
}

/// The entry that stands for the files that are not shown: its key is
/// `...`, and its text says how many they are.
pub open spec fn more_files_entry(hidden: nat) -> (Seq<char>, Seq<char>) {
    ("..."@, "and "@ + decimal(hidden) + " more files"@)
}

/// The files that a directory shows, each as its absolute path and its
/// name: all of `files` where they are at most fifteen; else the first ten
/// and, behind them, the entry that counts the others.
pub open spec fn shown_files(path: Seq<char>, files: Seq<Seq<char>>) -> Seq<
    (Seq<char>, Seq<char>),
> {
    if files.len() > 15 {
        Seq::new(10, |i: int| (child_path(path, files[i]), files[i])).push(
            more_files_entry((files.len() - 10) as nat),
        )
    } else {
        Seq::new(files.len(), |i: int| (child_path(path, files[i]), files[i]))
    }
}

/// The files that the directory `path` shows of the sorted `files`.
fn show_files(path: &str, files: &Vec<String>) -> (r: Vec<(String, String)>)
    ensures
        pair_texts(r@) == shown_files(path@, texts(files@)),
{
    let truncated = files.len() > FILE_LIMIT;
    let count: usize = if truncated {
        FILES_SHOWN
    } else {
        files.len()
    };
    let mut r: Vec<(String, String)> = Vec::new();
    let ghost names = texts(files@);
    let mut i: usize = 0;
    while i < count
        invariant
            i <= count <= files.len(),
            names == texts(files@),
            pair_texts(r@) == Seq::new(
                i as nat,
                |k: int| (child_path(path@, names[k]), names[k]),
            ),
        decreases count - i,
    {
        let ghost before = pair_texts(r@);
        assert(names[i as int] == files@[i as int]@);
        r.push((join_path(path, files[i].as_str()), files[i].clone()));
        assert(pair_texts(r@) =~= before.push(
            (child_path(path@, names[i as int]), names[i as int]),
        ));
        assert(pair_texts(r@) =~= Seq::new(
            (i + 1) as nat,
            |k: int| (child_path(path@, names[k]), names[k]),
        ));
        i += 1;
    }
    if truncated {
        let ghost before = pair_texts(r@);
        let hidden: usize = files.len() - FILES_SHOWN;
        let mut text: Vec<char> = Vec::new();
        push_str(&mut text, "and ");
        push_decimal(&mut text, hidden as u64);
        push_str(&mut text, " more files");
        r.push(("...".to_owned(), string_of(&text)));
        assert(pair_texts(r@) =~= before.push(more_files_entry(hidden as nat)));
    }
    r
}

/// The listings gathered so far, by the path of the directory listed.
pub struct Listings {
    entries: Vec<(String, Vec<DirItem>)>,
}

/// The listing under `path` among `entries`: that of the first entry with
/// this path.
pub open spec fn lookup(entries: Seq<(Seq<char>, Seq<(Seq<char>, bool)>)>, path: Seq<char>)
    -> Option<Seq<(Seq<char>, bool)>>
    decreases entries.len(),
{
    if entries.len() == 0 {
        None
    } else if entries[0].0 == path {
        Some(entries[0].1)
    } else {
        lookup(entries.drop_first(), path)
    }
}

impl Listings {
    /// The entries held, in the order in which they came.
    pub closed spec fn entries(&self) -> Seq<(Seq<char>, Seq<(Seq<char>, bool)>)> {
        Seq::new(
            self.entries@.len(),
            |i: int| (self.entries@[i].0@, item_views(self.entries@[i].1@)),
        )
    }

    /// The listing held for `path`, if there is one.
    pub open spec fn listing(&self, path: Seq<char>) -> Option<Seq<(Seq<char>, bool)>> {
        lookup(self.entries(), path)
    }

    /// No listings.
    pub fn new() -> (r: Listings)
        ensures
            r.entries() == Seq::<(Seq<char>, Seq<(Seq<char>, bool)>)>::empty(),
    {
        let r = Listings { entries: Vec::new() };
        assert(r.entries() =~= Seq::<(Seq<char>, Seq<(Seq<char>, bool)>)>::empty());
        r
    }

    /// The place of the first entry for `path`, if there is one.
    fn find(&self, path: &str) -> (r: Option<usize>)
        ensures
            r is Some <==> self.listing(path@) is Some,
            r matches Some(i) ==> i < self.entries@.len() && self.listing(path@) == Some(
                item_views(self.entries@[i as int].1@),
            ),
    {
        let ghost all = self.entries();
        let mut i: usize = 0;
        assert(all.skip(0) =~= all);
        while i < self.entries.len()
            invariant
                i <= self.entries@.len(),
                all == self.entries(),
                lookup(all, path@) == lookup(all.skip(i as int), path@),
            decreases self.entries@.len() - i,
        {
            assert(all.skip(i as int)[0] == all[i as int]);
            assert(all.skip(i as int).drop_first() =~= all.skip(i + 1));
            if same_text(self.entries[i].0.as_str(), path) {
                return Some(i);
            }
            i += 1;
        }
        assert(all.skip(i as int).len() == 0);
        None
    }

    /// Whether a listing is held for `path`.
    pub fn contains(&self, path: &str) -> (b: bool)
        ensures
            b == self.listing(path@) is Some,
    {
        self.find(path).is_some()
    }

    /// Records the listing of `path`. Where one is held for `path` already
    /// it stays, and `items` is dropped.
    pub fn insert(&mut self, path: &str, items: Vec<DirItem>)
        ensures
            old(self).listing(path@) is Some ==> final(self).entries() == old(self).entries(),
            old(self).listing(path@) is None ==> final(self).entries() == old(self).entries().push(
                (path@, item_views(items@)),
            ),
            final(self).listing(path@) == (match old(self).listing(path@) {
                Some(held) => Some(held),
                None => Some(item_views(items@)),
            }),
            forall|p: Seq<char>| p != path@ ==> final(self).listing(p) == old(self).listing(p),
    {
        if self.find(path).is_some() {
            return ;
        }
        let ghost before = self.entries();
        let ghost added = (path@, item_views(items@));
        self.entries.push((path.to_owned(), items));
        assert(self.entries() =~= before.push(added));
        proof {
            assert forall|p: Seq<char>| lookup(before.push(added), p) == (match lookup(before, p) {
                Some(held) => Some(held),
                None => if p == path@ {
                    Some(item_views(items@))
                } else {
                    None
                },
            }) by {
                lemma_lookup_push(before, added, p);
            }
        }
    }
}

/// Looking up in a sequence with one entry added at its end: what was found
/// before is found still, and the new entry is found where nothing was.
pub proof fn lemma_lookup_push(
    entries: Seq<(Seq<char>, Seq<(Seq<char>, bool)>)>,
    added: (Seq<char>, Seq<(Seq<char>, bool)>),
    path: Seq<char>,
)
    ensures
        lookup(entries.push(added), path) == (match lookup(entries, path) {
            Some(held) => Some(held),
            None => if path == added.0 {
                Some(added.1)
            } else {
                None
            },
        }),
    decreases entries.len(),
{
    let longer = entries.push(added);
    if entries.len() == 0 {
        assert(longer[0] == added);
        assert(longer.drop_first().len() == 0);
        assert(lookup(longer.drop_first(), path) is None);
    } else {
        assert(longer[0] == entries[0]);
        assert(longer.drop_first() =~= entries.drop_first().push(added));
        lemma_lookup_push(entries.drop_first(), added, path);
    }
}

/// The subdirectories that the tree shows of a listing: its directories in
/// the order of texts, each once; without one called `_files` where the
/// directory shows files, because that name then stands for the files.
pub open spec fn shown_dirs(items: Seq<(Seq<char>, bool)>) -> Seq<Seq<char>> {
    let dirs = sorted_from(names_of_kind(items, true));
    if names_of_kind(items, false).len() > 0 {
        dirs.filter(|n: Seq<char>| n != "_files"@)
    } else {
        dirs
    }
}

/// The tree of the directory `path`, which lies `depth` levels below the
/// start, from the listings `entries`. A directory deeper than `max_depth`
/// and one without a listing are empty. Every other directory shows its
/// subdirectories, each with its own tree, and its files.
pub open spec fn tree_of(
    entries: Seq<(Seq<char>, Seq<(Seq<char>, bool)>)>,
    path: Seq<char>,
    depth: nat,
    max_depth: nat,
) -> TreeView
    decreases max_depth + 1 - depth,
{
    if depth > max_depth {
        empty_tree()
    } else {
        match lookup(entries, path) {
            None => empty_tree(),
            Some(items) => {
                let dirs = shown_dirs(items);
                TreeView {
                    dirs: Seq::new(
                        dirs.len(),
                        |i: int|
                            (
                                dirs[i],
                                tree_of(entries, child_path(path, dirs[i]), depth + 1, max_depth),
                            ),
                    ),
                    files: shown_files(path, sorted_from(names_of_kind(items, false))),
                }
            },
        }
    }
}

/// The directories that the tree shows of `items`.
fn dirs_to_show(items: &Vec<DirItem>) -> (r: Vec<String>)
    ensures
        texts(r@) == shown_dirs(item_views(items@)),
{
    let dirs = sorted_names(items, true);
    let mut has_files = false;
    let ghost all = item_views(items@);
    let mut i: usize = 0;
    assert(names_of_kind(all.take(0), false).len() == 0);
    while i < items.len()
        invariant
            i <= items.len(),
            all == item_views(items@),
            has_files == (names_of_kind(all.take(i as int), false).len() > 0),
        decreases items.len() - i,
    {
        proof {
            assert(all.take(i + 1).drop_last() =~= all.take(i as int));
            assert(all.take(i + 1).last() == items@[i as int]@);
        }
        let name = chars_of(items[i].name.as_str());
        if !items[i].is_dir && !is_skipped_name(&name) {
            has_files = true;
        }
        i += 1;
    }
    assert(all.take(items.len() as int) =~= all);
    if !has_files {
        return dirs;
    }
    let ghost p = |n: Seq<char>| n != "_files"@;
    let ghost names = texts(dirs@);
    let mut r: Vec<String> = Vec::new();
    let mut k: usize = 0;
    proof {
        reveal(Seq::filter);
        assert(names.take(0).filter(p) =~= texts(r@));
    }
    while k < dirs.len()
        invariant
            k <= dirs.len(),
            names == texts(dirs@),
            p == (|n: Seq<char>| n != "_files"@),
            texts(r@) == names.take(k as int).filter(p),
        decreases dirs.len() - k,
    {
        let ghost before = texts(r@);
        proof {
            assert(names[k as int] == dirs@[k as int]@);
            assert(names.take(k + 1) =~= names.take(k as int).push(names[k as int]));
            names.take(k as int).lemma_filter_push(names[k as int], p);
        }
        if !same_text(dirs[k].as_str(), "_files") {
            r.push(dirs[k].clone());
            assert(texts(r@) =~= before.push(names[k as int]));
        }
        k += 1;
    }
    assert(names.take(dirs.len() as int) =~= names);
    r
}

/// Builds the tree of the directory `full_path`, which lies `current_depth`
/// levels below the start, from the listings gathered.
pub fn build_directory_tree(
    listings: &Listings,
    full_path: &str,
    current_depth: u32,
    max_depth: u32,
) -> (r: TreeNode)
    ensures
        r@ == tree_of(listings.entries(), full_path@, current_depth as nat, max_depth as nat),
    decreases max_depth + 1 - current_depth,
{
    if current_depth > max_depth {
        let r = TreeNode { dirs: Vec::new(), files: Vec::new() };
        assert(r@.dirs =~= Seq::empty());
        assert(r@.files =~= Seq::empty());
        return r;
    }
    match listings.find(full_path) {
        None => {
            let r = TreeNode { dirs: Vec::new(), files: Vec::new() };
            assert(r@.dirs =~= Seq::empty());
            assert(r@.files =~= Seq::empty());
            r
        },
        Some(at) => {
            let items = &listings.entries[at].1;
            let names = dirs_to_show(items);
            let file_names = sorted_names(items, false);
            let files = show_files(full_path, &file_names);
            let ghost entries = listings.entries();
            let ghost shown = texts(names@);
            let mut dirs: Vec<(String, TreeNode)> = Vec::new();
            let mut i: usize = 0;
            while i < names.len()
                invariant
                    i <= names.len(),
                    current_depth <= max_depth,
                    shown == texts(names@),
                    entries == listings.entries(),
                    dirs@.len() == i,
                    forall|k: int|
                        0 <= k < i ==> (#[trigger] dirs@[k]).0@ == shown[k] && dirs@[k].1@
                            == tree_of(
                            entries,
                            child_path(full_path@, shown[k]),
                            (current_depth + 1) as nat,
                            max_depth as nat,
                        ),
                decreases names.len() - i,
            {
                assert(shown[i as int] == names@[i as int]@);
                let sub_path = join_path(full_path, names[i].as_str());
                let sub = if current_depth < max_depth {
                    build_directory_tree(listings, sub_path.as_str(), current_depth + 1, max_depth)
                } else {
                    let leaf = TreeNode { dirs: Vec::new(), files: Vec::new() };
                    assert(leaf@.dirs =~= Seq::empty());
                    assert(leaf@.files =~= Seq::empty());
                    leaf
                };
                dirs.push((names[i].clone(), sub));
                i += 1;
            }
            let r = TreeNode { dirs, files };
            proof {
                let want = tree_of(entries, full_path@, current_depth as nat, max_depth as nat);
                assert(r@.dirs =~= want.dirs);
                assert(r@.files =~= want.files);
            }
            r
        },
    }
}

/// Builds the tree that starts at `base_path`, to the default depth.
pub fn build_comprehensive_file_tree(listings: &Listings, base_path: &str) -> (r: TreeNode)
    ensures
        r@ == tree_of(listings.entries(), base_path@, 0, 3),
{
    build_directory_tree(listings, base_path, 0, DEFAULT_MAX_DEPTH)
}

/// The first directory, in the order in which the tree is walked, that the
/// tree of `path` needs and for which no listing is held; `None` where the
/// tree is complete. A directory is walked before its subdirectories, and
/// these in the order in which the tree shows them.
pub open spec fn next_missing(
    entries: Seq<(Seq<char>, Seq<(Seq<char>, bool)>)>,
    path: Seq<char>,
    depth: nat,
    max_depth: nat,
) -> Option<Seq<char>>
    decreases max_depth + 1 - depth, 0nat,
{
    if depth > max_depth {
        None
    } else {
        match lookup(entries, path) {
            None => Some(path),
            Some(items) => next_missing_below(
                entries,
                path,
                shown_dirs(items),
                0,
                depth,
                max_depth,
            ),
        }
    }
}

/// The first directory without a listing below the subdirectories `dirs`
/// of `path` from position `from` on.
pub open spec fn next_missing_below(
    entries: Seq<(Seq<char>, Seq<(Seq<char>, bool)>)>,
    path: Seq<char>,
    dirs: Seq<Seq<char>>,
    from: nat,
    depth: nat,
    max_depth: nat,
) -> Option<Seq<char>>
    decreases max_depth - depth, dirs.len() - from + 1,
{
    if depth >= max_depth || from >= dirs.len() {
        None
    } else {
        match next_missing(entries, child_path(path, dirs[from as int]), depth + 1, max_depth) {
            Some(p) => Some(p),
            None => next_missing_below(entries, path, dirs, from + 1, depth, max_depth),
        }
    }
}

/// The next directory to list for the tree of `path`.
fn next_in(listings: &Listings, path: &str, depth: u32, max_depth: u32) -> (r: Option<String>)
    ensures
        opt_text(r) == next_missing(
            listings.entries(),
            path@,
            depth as nat,
            max_depth as nat,
        ),
    decreases max_depth + 1 - depth,
{
    if depth > max_depth {
        return None;
    }
    match listings.find(path) {
        None => Some(path.to_owned()),
        Some(at) => {
            let names = dirs_to_show(&listings.entries[at].1);
            let ghost entries = listings.entries();
            let ghost shown = texts(names@);
            if depth >= max_depth {
                return None;
            }
            let mut i: usize = 0;
            while i < names.len()
                invariant
                    i <= names.len(),
                    depth < max_depth,
                    shown == texts(names@),
                    entries == listings.entries(),
                    next_missing(entries, path@, depth as nat, max_depth as nat)
                        == next_missing_below(
                        entries,
                        path@,
                        shown,
                        0,
                        depth as nat,
                        max_depth as nat,
                    ),
                    next_missing_below(entries, path@, shown, 0, depth as nat, max_depth as nat)
                        == next_missing_below(
                        entries,
                        path@,
                        shown,
                        i as nat,
                        depth as nat,
                        max_depth as nat,
                    ),
                decreases names.len() - i,
            {
                assert(shown[i as int] == names@[i as int]@);
                let sub_path = join_path(path, names[i].as_str());
                let found = next_in(listings, sub_path.as_str(), depth + 1, max_depth);
                proof {
                    let below = next_missing_below(
                        entries,
                        path@,
                        shown,
                        i as nat,
                        depth as nat,
                        max_depth as nat,
                    );
                    let here = next_missing(
                        entries,
                        child_path(path@, shown[i as int]),
                        (depth + 1) as nat,
                        max_depth as nat,
                    );
                    assert(below == (match here {
                        Some(p) => Some(p),
                        None => next_missing_below(
                            entries,
                            path@,
                            shown,
                            (i + 1) as nat,
                            depth as nat,
                            max_depth as nat,
                        ),
                    }));
                }
                match found {
                    Some(p) => {
                        return Some(p);
                    },
                    None => {},
                }
                i += 1;
            }
            None
        },
    }
}

/// The next directory to list so that the tree that starts at `base_path`
/// can be built to the default depth, or `None` where every listing that
/// the tree needs is held.
pub fn next_directory(listings: &Listings, base_path: &str) -> (r: Option<String>)
    ensures
        opt_text(r) == next_missing(listings.entries(), base_path@, 0, 3),
        r matches Some(p) ==> listings.listing(p@) is None,
{
    let r = next_in(listings, base_path, 0, DEFAULT_MAX_DEPTH);
    proof {
        lemma_next_missing_is_missing(listings.entries(), base_path@, 0, 3);
    }
    r
}

/// A directory that `next_missing` names has no listing.
pub proof fn lemma_next_missing_is_missing(
    entries: Seq<(Seq<char>, Seq<(Seq<char>, bool)>)>,
    path: Seq<char>,
    depth: nat,
    max_depth: nat,
)
    ensures
        next_missing(entries, path, depth, max_depth) matches Some(p) ==> lookup(entries, p)
            is None,
    decreases max_depth + 1 - depth, 0nat,
{
    if depth <= max_depth {
        match lookup(entries, path) {
            None => {},
            Some(items) => {
                lemma_next_missing_below_is_missing(
                    entries,
                    path,
                    shown_dirs(items),
                    0,
                    depth,
                    max_depth,
                );
            },
        }
    }
}

/// A directory that `next_missing_below` names has no listing.
pub proof fn lemma_next_missing_below_is_missing(
    entries: Seq<(Seq<char>, Seq<(Seq<char>, bool)>)>,
    path: Seq<char>,
    dirs: Seq<Seq<char>>,
    from: nat,
    depth: nat,
    max_depth: nat,
)
    ensures
        next_missing_below(entries, path, dirs, from, depth, max_depth) matches Some(p) ==> lookup(
            entries,
            p,
        ) is None,
    decreases max_depth - depth, dirs.len() - from + 1,
{
    if depth < max_depth && from < dirs.len() {
        lemma_next_missing_is_missing(
            entries,
            child_path(path, dirs[from as int]),
            depth + 1,
            max_depth,
        );
        lemma_next_missing_below_is_missing(entries, path, dirs, from + 1, depth, max_depth);
    }
}

/// What the client is shown of a repository: the directory at which the
/// tree starts, and the tree.
#[derive(Debug, PartialEq, Eq)]
pub struct RepoStructure {
    pub current_directory: String,
    pub structure: TreeNode,
}

/// The repository view for the working directory `cwd`: the tree starts at
/// `cwd`, or at `/home` where `cwd` is `/`, and is built from the listings
/// gathered.
pub fn get_repo_structure(cwd: &str, listings: &Listings) -> (r: RepoStructure)
    ensures
        r.current_directory@ == (if cwd@ == "/"@ {
            "/home"@
        } else {
            cwd@
        }),
        r.structure@ == tree_of(listings.entries(), r.current_directory@, 0, 3),
{
    let root = tree_root(cwd);
    let structure = build_comprehensive_file_tree(listings, root.as_str());
    RepoStructure { current_directory: root, structure }
}

} // verus!
