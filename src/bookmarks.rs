//! Bookmark Store: an ordered list of directory paths without duplicates,
//! mirrored to a file that holds one path per line.

use vstd::prelude::*;
use crate::listing::{sorted_in, insert_all, order_lt};
use crate::pane::{StatefulList, clamped};
use crate::text::{views, contains_str, lemma_lex_irreflexive, lines_of, split_lines, split_state};

verus! {

/// No name occurs twice.
pub open spec fn no_duplicates(s: Seq<Seq<char>>) -> bool {
    forall|i: int, j: int| 0 <= i < j < s.len() ==> s[i] != s[j]
}

/// The bookmark file's text for the given paths: each on a line of its own.
pub open spec fn file_text(paths: Seq<Seq<char>>) -> Seq<char>
    decreases paths.len(),
{
    if paths.len() == 0 {
        seq![]
    } else {
        file_text(paths.drop_last()) + paths.last() + seq!['\n']
    }
}

proof fn lemma_split_extend(t: Seq<char>, p: Seq<char>)
    requires
        split_state(t).1.len() == 0,
        !p.contains('\n'),
    ensures
        split_state(t + p) == (split_state(t).0, p),
    decreases p.len(),
{
    if p.len() == 0 {
        assert(t + p =~= t);
    } else {
        assert(!p.drop_last().contains('\n')) by {
            if p.drop_last().contains('\n') {
                let k = choose|k: int| 0 <= k < p.drop_last().len() && p.drop_last()[k] == '\n';
                assert(p[k] == '\n');
            }
        }
        lemma_split_extend(t, p.drop_last());
        assert((t + p).drop_last() =~= t + p.drop_last());
        assert((t + p).last() == p.last());
        assert(p.last() != '\n') by {
            assert(p[p.len() - 1] == p.last());
        }
        assert(p.drop_last().push(p.last()) =~= p);
    }
}

/// Text written from bookmarks reads back as the same paths, when no path is
/// empty or holds a line break.
pub proof fn lemma_file_text_round_trip(paths: Seq<Seq<char>>)
    requires
        forall|i: int| 0 <= i < paths.len() ==> #[trigger] paths[i].len() > 0 && !paths[i].contains('\n'),
    ensures
        lines_of(file_text(paths)) == paths,
        split_state(file_text(paths)) == (paths, Seq::<char>::empty()),
    decreases paths.len(),
{
    if paths.len() == 0 {
        assert(split_state(Seq::<char>::empty()) == (Seq::<Seq<char>>::empty(), Seq::<char>::empty()));
        assert(paths =~= Seq::<Seq<char>>::empty());
    } else {
        let init = paths.drop_last();
        let p = paths.last();
        assert(paths[paths.len() - 1] == p);
        lemma_file_text_round_trip(init);
        let t = file_text(init);
        lemma_split_extend(t, p);
        let whole = t + p + seq!['\n'];
        assert(whole.drop_last() =~= t + p);
        assert(whole.last() == '\n');
        assert(init.push(p) =~= paths);
    }
}

/// Splits the bookmark file's text into its paths, one per non-empty line.
pub fn parse_bookmark_file(text: &str) -> (r: Vec<String>)
    ensures
        views(r@) == lines_of(text@),
{
    split_lines(text)
}

/// The bookmarks and the file after adding `p`: both gain `p` unless the
/// bookmarks already hold it.
pub open spec fn after_add(mem: Seq<Seq<char>>, file: Seq<Seq<char>>, p: Seq<char>) -> (
    Seq<Seq<char>>,
    Seq<Seq<char>>,
) {
    if mem.contains(p) {
        (mem, file)
    } else {
        (mem.push(p), file.push(p))
    }
}

/// The bookmarks and the file after adding `p` `times` times.
pub open spec fn after_adds(mem: Seq<Seq<char>>, file: Seq<Seq<char>>, p: Seq<char>, times: nat) -> (
    Seq<Seq<char>>,
    Seq<Seq<char>>,
)
    decreases times,
{
    if times == 0 {
        (mem, file)
    } else {
        let prev = after_adds(mem, file, p, (times - 1) as nat);
        after_add(prev.0, prev.1, p)
    }
}

/// `r` is what loading `lines` into bookmarks `mem` gives: every path of
/// either, once, in lexical order.
pub open spec fn is_loaded(r: Seq<Seq<char>>, mem: Seq<Seq<char>>, lines: Seq<Seq<char>>) -> bool {
    &&& sorted_in(r, false)
    &&& forall|n: Seq<char>| r.contains(n) <==> (mem.contains(n) || lines.contains(n))
}

/// The bookmark list with its selection.
pub struct Bookmarks {
    pub list: StatefulList,
}

impl Bookmarks {
    /// The paths, as character sequences.
    pub open spec fn paths(&self) -> Seq<Seq<char>> {
        views(self.list.items@)
    }

    /// No path is bookmarked twice.
    pub open spec fn wf(&self) -> bool {
        no_duplicates(self.paths())
    }

    /// No bookmarks, nothing selected.
    pub fn new() -> (r: Bookmarks)
        ensures
            r.wf(),
            r.paths() == Seq::<Seq<char>>::empty(),
            r.list.selected is None,
    {
        let r = Bookmarks { list: StatefulList::with_items(Vec::new()) };
        assert(r.paths() =~= Seq::<Seq<char>>::empty());
        r
    }

    /// Adds `path` unless it is already bookmarked, and then selects the
    /// first bookmark. Returns whether it was added, that is whether the
    /// caller is to append it to the file.
    pub fn add(&mut self, path: String) -> (added: bool)
        requires
            old(self).wf(),
        ensures
            final(self).wf(),
            added == !old(self).paths().contains(path@),
            final(self).paths() == after_add(old(self).paths(), seq![], path@).0,
            added ==> final(self).list.selected == Some(0usize),
            !added ==> final(self).list.selected == old(self).list.selected,
    {
        if contains_str(&self.list.items, &path) {
            return false;
        }
        let ghost before = self.paths();
        self.list.items.push(path);
        assert(self.paths() =~= before.push(path@));
        assert forall|i: int, j: int| 0 <= i < j < self.paths().len() implies self.paths()[i]
            != self.paths()[j] by {
            if j == before.len() {
                assert(before.contains(before[i]));
            }
        }
        self.list.selected = Some(0);
        true
    }

    /// Merges the lines read from the file into the bookmarks, sorts them
    /// lexically, and selects the first one when there is any.
    pub fn load(&mut self, lines: &Vec<String>)
        requires
            old(self).wf(),
        ensures
            final(self).wf(),
            is_loaded(final(self).paths(), old(self).paths(), views(lines@)),
            final(self).list.selected == if final(self).paths().len() > 0 {
                Some(0usize)
            } else {
                old(self).list.selected
            },
    {
        let mut merged: Vec<String> = Vec::new();
        assert(views(merged@) =~= Seq::<Seq<char>>::empty());
        let ghost old_paths = self.paths();
        let ghost empty = views(merged@);
        insert_all(&mut merged, &self.list.items, false);
        let ghost middle = views(merged@);
        insert_all(&mut merged, lines, false);
        proof {
            lemma_union_chain(empty, old_paths, middle, views(lines@), views(merged@));
        }
        if merged.len() > 0 {
            self.list.selected = Some(0);
        }
        self.list.items = merged;
        proof {
            lemma_sorted_no_duplicates(self.paths());
        }
    }

    /// Removes the bookmark at `index` when it exists and its path is still
    /// a directory (`still_dir`), keeping the selection within the list.
    /// Returns whether it was removed, that is whether the caller is to
    /// rewrite the file from the remaining bookmarks.
    pub fn delete(&mut self, index: usize, still_dir: bool) -> (removed: bool)
        requires
            old(self).wf(),
        ensures
            final(self).wf(),
            removed == (still_dir && index < old(self).paths().len()),
            removed ==> final(self).paths() == old(self).paths().remove(index as int),
            removed ==> final(self).list.selected == clamped(
                old(self).list.selected,
                final(self).paths().len(),
            ),
            !removed ==> *final(self) == *old(self),
    {
        if !still_dir || index >= self.list.items.len() {
            return false;
        }
        let ghost before = self.paths();
        self.list.items.remove(index);
        assert(self.paths() =~= before.remove(index as int));
        assert forall|i: int, j: int| 0 <= i < j < self.paths().len() implies self.paths()[i]
            != self.paths()[j] by {
            if i >= index {
                assert(self.paths()[i] == before[i + 1]);
                assert(self.paths()[j] == before[j + 1]);
            } else if j >= index {
                assert(self.paths()[j] == before[j + 1]);
            }
        }
        self.list.selected = crate::pane::clamp_selection(self.list.selected, self.list.items.len());
        true
    }
}

proof fn lemma_union_chain(
    empty: Seq<Seq<char>>,
    first: Seq<Seq<char>>,
    middle: Seq<Seq<char>>,
    second: Seq<Seq<char>>,
    last: Seq<Seq<char>>,
)
    requires
        empty.len() == 0,
        forall|n: Seq<char>| middle.contains(n) <==> (empty.contains(n) || first.contains(n)),
        forall|n: Seq<char>| last.contains(n) <==> (middle.contains(n) || second.contains(n)),
    ensures
        forall|n: Seq<char>| last.contains(n) <==> (first.contains(n) || second.contains(n)),
{
    assert forall|n: Seq<char>| last.contains(n) <==> (first.contains(n) || second.contains(n)) by {
        assert(last.contains(n) <==> (middle.contains(n) || second.contains(n)));
        assert(middle.contains(n) <==> (empty.contains(n) || first.contains(n)));
    }
}

proof fn lemma_sorted_no_duplicates(s: Seq<Seq<char>>)
    requires
        sorted_in(s, false),
    ensures
        no_duplicates(s),
{
    assert forall|i: int, j: int| 0 <= i < j < s.len() implies s[i] != s[j] by {
        assert(order_lt(s[i], s[j], false));
        lemma_lex_irreflexive(s[i]);
    }
}

/// Adding a path to the bookmarks any positive number of times and then
/// loading the file into empty bookmarks gives a list that holds the path
/// exactly once, provided every bookmark held at the start is in the file.
pub proof fn lemma_add_then_load(
    mem: Seq<Seq<char>>,
    file: Seq<Seq<char>>,
    p: Seq<char>,
    times: nat,
    loaded: Seq<Seq<char>>,
)
    requires
        times >= 1,
        forall|n: Seq<char>| mem.contains(n) ==> file.contains(n),
        is_loaded(loaded, seq![], after_adds(mem, file, p, times).1),
    ensures
        loaded.contains(p),
        forall|i: int, j: int|
            0 <= i < loaded.len() && 0 <= j < loaded.len() && loaded[i] == p && loaded[j] == p
                ==> i == j,
{
    lemma_adds_keep_mirror(mem, file, p, times);
    let st = after_adds(mem, file, p, times);
    assert(st.0.contains(p));
    assert(st.1.contains(p));
    lemma_sorted_no_duplicates(loaded);
    assert forall|i: int, j: int|
        0 <= i < loaded.len() && 0 <= j < loaded.len() && loaded[i] == p && loaded[j] == p
        implies i == j by {
        if i < j {
            assert(loaded[i] != loaded[j]);
        } else if j < i {
            assert(loaded[j] != loaded[i]);
        }
    }
}

proof fn lemma_adds_keep_mirror(mem: Seq<Seq<char>>, file: Seq<Seq<char>>, p: Seq<char>, times: nat)
    requires
        forall|n: Seq<char>| mem.contains(n) ==> file.contains(n),
    ensures
        forall|n: Seq<char>|
            after_adds(mem, file, p, times).0.contains(n) ==> after_adds(mem, file, p, times).1.contains(n),
        times >= 1 ==> after_adds(mem, file, p, times).0.contains(p),
    decreases times,
{
    if times > 0 {
        lemma_adds_keep_mirror(mem, file, p, (times - 1) as nat);
        let prev = after_adds(mem, file, p, (times - 1) as nat);
        if !prev.0.contains(p) {
            let m = prev.0.push(p);
            let f = prev.1.push(p);
            assert forall|n: Seq<char>| m.contains(n) implies f.contains(n) by {
                let k = choose|k: int| 0 <= k < m.len() && m[k] == n;
                if k < prev.0.len() {
                    assert(prev.0[k] == n);
                    assert(prev.0.contains(n));
                    let q = choose|q: int| 0 <= q < prev.1.len() && prev.1[q] == n;
                    assert(f[q] == n);
                } else {
                    assert(f[prev.1.len() as int] == n);
                }
            }
            assert(m[prev.0.len() as int] == p);
        }
    }
}

} // verus!
