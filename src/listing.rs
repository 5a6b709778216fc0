//! Directory snapshot: the working directory's entries split into a file
//! list and a directory list, filtered and sorted with dotfiles last.

use vstd::prelude::*;
use crate::text::{
    is_dotted, lemma_lex_asymmetric, lemma_lex_irreflexive, lemma_lex_total,
    lemma_lex_transitive, lex_less, lex_lt, starts_with_dot, views, contains_str,
};

verus! {

/// Listing order: non-dotfiles before dotfiles, lexical within each group.
pub open spec fn entry_lt(a: Seq<char>, b: Seq<char>) -> bool {
    (!is_dotted(a) && is_dotted(b)) || (is_dotted(a) == is_dotted(b) && lex_lt(a, b))
}

/// Listing order when `grouped`, plain lexical order otherwise.
pub open spec fn order_lt(a: Seq<char>, b: Seq<char>, grouped: bool) -> bool {
    if grouped {
        entry_lt(a, b)
    } else {
        lex_lt(a, b)
    }
}

/// Every earlier name sorts strictly before every later one in the order
/// that `grouped` picks.
pub open spec fn sorted_in(s: Seq<Seq<char>>, grouped: bool) -> bool {
    forall|i: int, j: int|
        #![trigger s[i], s[j]]
        0 <= i < j < s.len() ==> order_lt(s[i], s[j], grouped)
}

/// Every earlier name sorts strictly before every later one in listing order.
pub open spec fn strictly_sorted(s: Seq<Seq<char>>) -> bool {
    sorted_in(s, true)
}

/// The name of the synthetic parent entry that heads every directory list.
pub open spec fn parent_entry() -> Seq<char> {
    seq!['.', '.', '/']
}

/// Whether a file name is shown.
pub open spec fn file_kept(name: Seq<char>, show_hidden: bool) -> bool {
    show_hidden || !is_dotted(name)
}

/// Whether a directory name is shown.
pub open spec fn dir_kept(name: Seq<char>, show_hidden: bool, exclusions: Seq<Seq<char>>) -> bool {
    &&& name != parent_entry()
    &&& file_kept(name, show_hidden)
    &&& !exclusions.contains(name)
}

pub proof fn lemma_entry_irreflexive(a: Seq<char>)
    ensures
        !entry_lt(a, a),
{
    lemma_lex_irreflexive(a);
}

pub proof fn lemma_entry_transitive(a: Seq<char>, b: Seq<char>, c: Seq<char>)
    requires
        entry_lt(a, b),
        entry_lt(b, c),
    ensures
        entry_lt(a, c),
{
    if is_dotted(a) == is_dotted(b) && is_dotted(b) == is_dotted(c) {
        lemma_lex_transitive(a, b, c);
    }
}

pub proof fn lemma_entry_total(a: Seq<char>, b: Seq<char>)
    requires
        a != b,
    ensures
        entry_lt(a, b) || entry_lt(b, a),
{
    lemma_lex_total(a, b);
}

pub proof fn lemma_entry_asymmetric(a: Seq<char>, b: Seq<char>)
    requires
        entry_lt(a, b),
    ensures
        !entry_lt(b, a),
{
    if is_dotted(a) == is_dotted(b) {
        lemma_lex_asymmetric(a, b);
    }
}

proof fn lemma_order_total(a: Seq<char>, b: Seq<char>, grouped: bool)
    requires
        a != b,
    ensures
        order_lt(a, b, grouped) || order_lt(b, a, grouped),
{
    lemma_entry_total(a, b);
}

proof fn lemma_order_transitive(a: Seq<char>, b: Seq<char>, c: Seq<char>, grouped: bool)
    requires
        order_lt(a, b, grouped),
        order_lt(b, c, grouped),
    ensures
        order_lt(a, c, grouped),
{
    if grouped {
        lemma_entry_transitive(a, b, c);
    } else {
        lemma_lex_transitive(a, b, c);
    }
}

/// Compares two names in the order that `grouped` picks.
fn order_less(a: &str, b: &str, grouped: bool) -> (r: bool)
    ensures
        r == order_lt(a@, b@, grouped),
{
    if grouped {
        entry_less(a, b)
    } else {
        lex_less(a, b)
    }
}

/// Compares two names in listing order.
pub fn entry_less(a: &str, b: &str) -> (r: bool)
    ensures
        r == entry_lt(a@, b@),
{
    let da = starts_with_dot(a);
    let db = starts_with_dot(b);
    if da != db {
        !da
    } else {
        lex_less(a, b)
    }
}

/// Inserts a name into a strictly sorted list, unless an equal name is there.
pub fn sorted_insert(items: &mut Vec<String>, name: String, grouped: bool)
    requires
        sorted_in(views(old(items)@), grouped),
    ensures
        sorted_in(views(final(items)@), grouped),
        forall|n: Seq<char>|
            views(final(items)@).contains(n) <==> (views(old(items)@).contains(n) || n == name@),
{
    let ghost old_v = views(items@);
    let mut j: usize = 0;
    while j < items.len() && order_less(items[j].as_str(), name.as_str(), grouped)
        invariant
            views(items@) == old_v,
            j <= items.len(),
            forall|k: int| 0 <= k < j ==> order_lt(old_v[k], name@, grouped),
        decreases items.len() - j,
    {
        assert(old_v[j as int] == items@[j as int]@);
        j = j + 1;
    }
    if j < items.len() && items[j] == name {
        assert(old_v[j as int] == name@);
        return;
    }
    proof {
        if j < items.len() {
            assert(old_v[j as int] == items@[j as int]@);
            lemma_order_total(old_v[j as int], name@, grouped);
        }
    }
    let ghost x = name@;
    items.insert(j, name);
    let ghost new_v = views(items@);
    assert(new_v =~= old_v.insert(j as int, x));
    assert forall|a: int, b: int| 0 <= a < b < new_v.len() implies order_lt(new_v[a], new_v[b], grouped) by {
        if b < j {
        } else if b == j {
        } else if a < j {
            lemma_order_transitive(old_v[a], x, old_v[j as int], grouped);
            if b - 1 > j {
                lemma_order_transitive(old_v[a], old_v[j as int], old_v[b - 1], grouped);
            }
        } else if a == j {
            if b - 1 > j {
                lemma_order_transitive(x, old_v[j as int], old_v[b - 1], grouped);
            }
        } else {
        }
    }
    assert forall|n: Seq<char>| new_v.contains(n) <==> (old_v.contains(n) || n == x) by {
        if new_v.contains(n) {
            let k = choose|k: int| 0 <= k < new_v.len() && new_v[k] == n;
            if k < j {
                assert(old_v[k] == n);
            } else if k > j {
                assert(old_v[k - 1] == n);
            }
        }
        if old_v.contains(n) {
            let k = choose|k: int| 0 <= k < old_v.len() && old_v[k] == n;
            if k < j {
                assert(new_v[k] == n);
            } else {
                assert(new_v[k + 1] == n);
            }
        }
        if n == x {
            assert(new_v[j as int] == n);
        }
    }
}

proof fn lemma_insert_step(
    before: Seq<Seq<char>>,
    after: Seq<Seq<char>>,
    start: Seq<Seq<char>>,
    src: Seq<String>,
    i: int,
)
    requires
        0 <= i < src.len(),
        forall|n: Seq<char>|
            before.contains(n) <==> (start.contains(n) || views(src.subrange(0, i)).contains(n)),
        forall|n: Seq<char>| after.contains(n) <==> (before.contains(n) || n == src[i]@),
    ensures
        forall|n: Seq<char>|
            after.contains(n) <==> (start.contains(n) || views(src.subrange(0, i + 1)).contains(n)),
{
    lemma_views_prefix_step(src, i);
    assert forall|n: Seq<char>|
        after.contains(n) <==> (start.contains(n) || views(src.subrange(0, i + 1)).contains(n)) by {
        assert(before.contains(n) <==> (start.contains(n) || views(src.subrange(0, i)).contains(n)));
        assert(after.contains(n) <==> (before.contains(n) || n == src[i]@));
        assert(views(src.subrange(0, i + 1)).contains(n) <==> (views(src.subrange(0, i)).contains(n) || n == src[i]@));
    }
}

/// Inserts every name of `src` into a strictly sorted list.
pub fn insert_all(items: &mut Vec<String>, src: &Vec<String>, grouped: bool)
    requires
        sorted_in(views(old(items)@), grouped),
    ensures
        sorted_in(views(final(items)@), grouped),
        forall|n: Seq<char>|
            #![trigger views(final(items)@).contains(n)]
            views(final(items)@).contains(n) <==> (views(old(items)@).contains(n) || views(
                src@,
            ).contains(n)),
{
    let ghost start = views(items@);
    let mut i: usize = 0;
    while i < src.len()
        invariant
            i <= src.len(),
            sorted_in(views(items@), grouped),
            forall|n: Seq<char>|
                views(items@).contains(n) <==> (start.contains(n) || views(
                    src@.subrange(0, i as int),
                ).contains(n)),
        decreases src.len() - i,
    {
        let ghost before = views(items@);
        let name = src[i].clone();
        assert(name@ == src@[i as int]@);
        sorted_insert(items, name, grouped);
        proof {
            lemma_insert_step(before, views(items@), start, src@, i as int);
        }
        i = i + 1;
    }
    assert(src@.subrange(0, src.len() as int) =~= src@);
}

/// `r` is the file list of a directory whose files are `raw`.
pub open spec fn is_file_listing(r: Seq<Seq<char>>, raw: Seq<Seq<char>>, show_hidden: bool) -> bool {
    &&& strictly_sorted(r)
    &&& forall|n: Seq<char>| r.contains(n) <==> (raw.contains(n) && file_kept(n, show_hidden))
}

/// A directory list's shape: the parent entry first, and nowhere else.
pub open spec fn parent_first(r: Seq<Seq<char>>) -> bool {
    &&& r.len() >= 1
    &&& r[0] == parent_entry()
    &&& forall|k: int| 1 <= k < r.len() ==> r[k] != parent_entry()
}

/// `r` is the directory list of a directory whose subdirectories are `raw`.
pub open spec fn is_dir_listing(
    r: Seq<Seq<char>>,
    raw: Seq<Seq<char>>,
    show_hidden: bool,
    exclusions: Seq<Seq<char>>,
) -> bool {
    &&& parent_first(r)
    &&& strictly_sorted(r.drop_first())
    &&& forall|n: Seq<char>|
        r.drop_first().contains(n) <==> (raw.contains(n) && dir_kept(n, show_hidden, exclusions))
}

/// Whether a name of the given kind is shown.
pub open spec fn entry_kept(
    name: Seq<char>,
    is_dir: bool,
    show_hidden: bool,
    exclusions: Seq<Seq<char>>,
) -> bool {
    if is_dir {
        dir_kept(name, show_hidden, exclusions)
    } else {
        file_kept(name, show_hidden)
    }
}

fn collect_sorted(raw: &Vec<String>, is_dir: bool, show_hidden: bool, exclusions: &Vec<String>) -> (r:
    Vec<String>)
    ensures
        strictly_sorted(views(r@)),
        forall|n: Seq<char>|
            views(r@).contains(n) <==> (views(raw@).contains(n) && entry_kept(
                n,
                is_dir,
                show_hidden,
                views(exclusions@),
            )),
{
    let parent = String::from_str("../");
    proof {
        reveal_strlit("../");
        assert(parent@ =~= parent_entry());
    }
    let mut out: Vec<String> = Vec::new();
    let mut i: usize = 0;
    while i < raw.len()
        invariant
            i <= raw.len(),
            parent@ == parent_entry(),
            strictly_sorted(views(out@)),
            forall|n: Seq<char>|
                views(out@).contains(n) <==> (views(raw@.subrange(0, i as int)).contains(n)
                    && entry_kept(n, is_dir, show_hidden, views(exclusions@))),
        decreases raw.len() - i,
    {
        let ghost before = views(out@);
        let name = raw[i].clone();
        let keep = if is_dir {
            name != parent && (show_hidden || !starts_with_dot(name.as_str())) && !contains_str(
                exclusions,
                &name,
            )
        } else {
            show_hidden || !starts_with_dot(name.as_str())
        };
        if keep {
            sorted_insert(&mut out, name, true);
        }
        proof {
            lemma_views_prefix_step(raw@, i as int);
            assert forall|n: Seq<char>|
                views(out@).contains(n) <==> (views(raw@.subrange(0, i + 1)).contains(n)
                    && entry_kept(n, is_dir, show_hidden, views(exclusions@))) by {
                assert(before.contains(n) <==> (views(raw@.subrange(0, i as int)).contains(n)
                    && entry_kept(n, is_dir, show_hidden, views(exclusions@))));
            }
        }
        i = i + 1;
    }
    assert(raw@.subrange(0, raw.len() as int) =~= raw@);
    out
}

/// The file list of a snapshot: the kept names of `raw`, sorted.
pub fn list_files(raw: &Vec<String>, show_hidden: bool) -> (r: Vec<String>)
    ensures
        is_file_listing(views(r@), views(raw@), show_hidden),
{
    let none: Vec<String> = Vec::new();
    let r = collect_sorted(raw, false, show_hidden, &none);
    assert forall|n: Seq<char>|
        views(r@).contains(n) <==> (views(raw@).contains(n) && file_kept(n, show_hidden)) by {
        assert(entry_kept(n, false, show_hidden, views(none@)) == file_kept(n, show_hidden));
    }
    r
}

/// The directory list of a snapshot: the parent entry, then the kept names
/// of `raw`, sorted.
pub fn list_dirs(raw: &Vec<String>, show_hidden: bool, exclusions: &Vec<String>) -> (r: Vec<String>)
    ensures
        is_dir_listing(views(r@), views(raw@), show_hidden, views(exclusions@)),
{
    let mut out = collect_sorted(raw, true, show_hidden, exclusions);
    let parent = String::from_str("../");
    proof {
        reveal_strlit("../");
        assert(parent@ =~= parent_entry());
    }
    let mut r: Vec<String> = Vec::new();
    r.push(parent);
    let ghost sorted = views(out@);
    r.append(&mut out);
    assert(views(r@).drop_first() =~= sorted);
    proof {
        let v = views(r@);
        assert forall|k: int| 1 <= k < v.len() implies v[k] != parent_entry() by {
            assert(v.drop_first()[k - 1] == v[k]);
            assert(v.drop_first().contains(v[k]));
        }
    }
    r
}

/// Two strictly sorted sequences holding the same names are equal.
pub proof fn lemma_sorted_unique(a: Seq<Seq<char>>, b: Seq<Seq<char>>)
    requires
        strictly_sorted(a),
        strictly_sorted(b),
        forall|n: Seq<char>| a.contains(n) <==> b.contains(n),
    ensures
        a == b,
    decreases a.len(),
{
    if a.len() == 0 {
        if b.len() > 0 {
            assert(b.contains(b[0]));
        }
        assert(a =~= b);
    } else if b.len() == 0 {
        assert(a.contains(a[0]));
    } else {
        assert(a.contains(a[0]));
        assert(b.contains(b[0]));
        let k = choose|k: int| 0 <= k < b.len() && b[k] == a[0];
        let m = choose|m: int| 0 <= m < a.len() && a[m] == b[0];
        if a[0] != b[0] {
            assert(k > 0 && m > 0);
            lemma_entry_asymmetric(a[0], a[m]);
        }
        let a1 = a.drop_first();
        let b1 = b.drop_first();
        assert forall|n: Seq<char>| a1.contains(n) <==> b1.contains(n) by {
            if a1.contains(n) {
                let i = choose|i: int| 0 <= i < a1.len() && a1[i] == n;
                assert(a[i + 1] == n);
                lemma_entry_irreflexive(n);
                assert(b.contains(n));
                let j = choose|j: int| 0 <= j < b.len() && b[j] == n;
                assert(j != 0);
                assert(b1[j - 1] == n);
            }
            if b1.contains(n) {
                let i = choose|i: int| 0 <= i < b1.len() && b1[i] == n;
                assert(b[i + 1] == n);
                lemma_entry_irreflexive(n);
                assert(a.contains(n));
                let j = choose|j: int| 0 <= j < a.len() && a[j] == n;
                assert(j != 0);
                assert(a1[j - 1] == n);
            }
        }
        lemma_sorted_unique(a1, b1);
        assert(a =~= seq![a[0]] + a1);
        assert(b =~= seq![b[0]] + b1);
    }
}

/// Listing twice a directory whose contents did not change gives the same
/// lists, in whatever order the entries were enumerated.
pub proof fn lemma_listing_repeatable(
    files1: Seq<Seq<char>>,
    files2: Seq<Seq<char>>,
    raw_files1: Seq<Seq<char>>,
    raw_files2: Seq<Seq<char>>,
    dirs1: Seq<Seq<char>>,
    dirs2: Seq<Seq<char>>,
    raw_dirs1: Seq<Seq<char>>,
    raw_dirs2: Seq<Seq<char>>,
    show_hidden: bool,
    exclusions: Seq<Seq<char>>,
)
    requires
        forall|n: Seq<char>| raw_files1.contains(n) <==> raw_files2.contains(n),
        forall|n: Seq<char>| raw_dirs1.contains(n) <==> raw_dirs2.contains(n),
        is_file_listing(files1, raw_files1, show_hidden),
        is_file_listing(files2, raw_files2, show_hidden),
        is_dir_listing(dirs1, raw_dirs1, show_hidden, exclusions),
        is_dir_listing(dirs2, raw_dirs2, show_hidden, exclusions),
    ensures
        files1 == files2,
        dirs1 == dirs2,
{
    assert forall|n: Seq<char>| files1.contains(n) <==> files2.contains(n) by {
        assert(files1.contains(n) <==> (raw_files1.contains(n) && file_kept(n, show_hidden)));
        assert(files2.contains(n) <==> (raw_files2.contains(n) && file_kept(n, show_hidden)));
    }
    lemma_sorted_unique(files1, files2);
    assert forall|n: Seq<char>| dirs1.drop_first().contains(n) <==> dirs2.drop_first().contains(n) by {
        assert(dirs1.drop_first().contains(n) <==> (raw_dirs1.contains(n) && dir_kept(n, show_hidden, exclusions)));
        assert(dirs2.drop_first().contains(n) <==> (raw_dirs2.contains(n) && dir_kept(n, show_hidden, exclusions)));
    }
    lemma_sorted_unique(dirs1.drop_first(), dirs2.drop_first());
    assert(dirs1 =~= seq![dirs1[0]] + dirs1.drop_first());
    assert(dirs2 =~= seq![dirs2[0]] + dirs2.drop_first());
}

/// In a sorted listing every dotfile comes after every other name, and
/// names of the same group are in ascending lexical order.
pub proof fn lemma_dotfiles_last(s: Seq<Seq<char>>, i: int, j: int)
    requires
        strictly_sorted(s),
        0 <= i < j < s.len(),
    ensures
        is_dotted(s[i]) ==> is_dotted(s[j]),
        is_dotted(s[i]) == is_dotted(s[j]) ==> lex_lt(s[i], s[j]),
{
    assert(entry_lt(s[i], s[j]));
}

proof fn lemma_views_prefix_step(raw: Seq<String>, i: int)
    requires
        0 <= i < raw.len(),
    ensures
        forall|n: Seq<char>|
            views(raw.subrange(0, i + 1)).contains(n) <==> (views(raw.subrange(0, i)).contains(n)
                || n == raw[i]@),
{
    let a = views(raw.subrange(0, i));
    let b = views(raw.subrange(0, i + 1));
    assert(b =~= a.push(raw[i]@));
    assert forall|n: Seq<char>| b.contains(n) <==> (a.contains(n) || n == raw[i]@) by {
        if b.contains(n) {
            let k = choose|k: int| 0 <= k < b.len() && b[k] == n;
            if k < i {
                assert(a[k] == n);
            }
        }
        if a.contains(n) {
            let k = choose|k: int| 0 <= k < a.len() && a[k] == n;
            assert(b[k] == n);
        }
        if n == raw[i]@ {
            assert(b[i] == n);
        }
    }
}

} // verus!
