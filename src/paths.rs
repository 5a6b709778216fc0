//! Path strings: shortening for display, and the directory part of a path.

use vstd::prelude::*;
use vstd::string::{StrSliceExecFns, StringExecFns};
use crate::text::{base_name, base_name_start, count_char, lemma_count_prepend};

verus! {

/// A path shortened for display: when it has more than four `/`-separated
/// components, `.../` followed by the last three; otherwise unchanged.
pub open spec fn abbreviated(path: Seq<char>, r: Seq<char>) -> bool {
    if count_char(path, '/') >= 4 {
        exists|k: int|
            0 <= k < path.len() && path[k] == '/' && count_char(
                #[trigger] path.subrange(k + 1, path.len() as int),
                '/',
            ) == 2 && r == ".../"@ + path.subrange(k + 1, path.len() as int)
    } else {
        r == path
    }
}

/// Shortens a path for display to its last three components.
pub fn abbreviate_path(path: &str) -> (r: String)
    ensures
        abbreviated(path@, r@),
{
    let n = path.unicode_len();
    let mut total: usize = 0;
    let mut i: usize = 0;
    while i < n
        invariant
            n == path@.len(),
            i <= n,
            total == count_char(path@.take(i as int), '/'),
            total <= i,
        decreases n - i,
    {
        assert(path@.take(i + 1).drop_last() =~= path@.take(i as int));
        if path.get_char(i) == '/' {
            total = total + 1;
        }
        i = i + 1;
    }
    assert(path@.take(n as int) =~= path@);
    if total < 4 {
        let r = String::from_str(path);
        assert(count_char(path@, '/') < 4);
        return r;
    }
    let mut j: usize = n;
    let mut cnt: usize = 0;
    assert(path@.subrange(n as int, n as int) =~= Seq::<char>::empty());
    while j > 0
        invariant
            n == path@.len(),
            j <= n,
            cnt <= 2,
            cnt == count_char(path@.subrange(j as int, n as int), '/'),
            count_char(path@, '/') >= 4,
        decreases j,
    {
        let c = path.get_char(j - 1);
        proof {
            assert(path@.subrange(j - 1, n as int) =~= seq![c] + path@.subrange(j as int, n as int));
            lemma_count_prepend(c, path@.subrange(j as int, n as int), '/');
        }
        if c == '/' {
            if cnt == 2 {
                let head = String::from_str(".../");
                let tail = path.substring_char(j, n);
                let r = head.concat(tail);
                proof {
                    reveal_strlit(".../");
                    assert(r@ == ".../"@ + path@.subrange(j as int, n as int));
                    let k = j - 1;
                    assert(path@[k] == '/');
                    assert(path@.subrange(k + 1, n as int) == path@.subrange(j as int, n as int));
                    assert(count_char(path@.subrange(k + 1, path@.len() as int), '/') == 2);
                }
                return r;
            }
            cnt = cnt + 1;
        }
        j = j - 1;
    }
    assert(path@.subrange(0, n as int) =~= path@);
    String::from_str(path)
}

/// The directory part of a path: what precedes its last `/`; `/` when that
/// is the first character, and `.` when the path has no `/`.
pub open spec fn parent_dir(path: Seq<char>) -> Seq<char> {
    let k = path.len() - base_name(path).len();
    if k == 0 {
        "."@
    } else if k == 1 {
        "/"@
    } else {
        path.subrange(0, k - 1)
    }
}

/// Returns the directory part of a path.
pub fn parent_of(path: &str) -> (r: String)
    ensures
        r@ == parent_dir(path@),
{
    let start = base_name_start(path);
    proof {
        assert(base_name(path@).len() == path@.len() - start);
    }
    if start == 0 {
        String::from_str(".")
    } else if start == 1 {
        String::from_str("/")
    } else {
        String::from_str(path.substring_char(0, start - 1))
    }
}

} // verus!
