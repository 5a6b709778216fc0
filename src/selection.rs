//! Selection Buffer: absolute paths staged for a copy or a move into the
//! working directory.

use vstd::prelude::*;
use vstd::string::{StrSliceExecFns, StringExecFns};
use crate::text::{base_name, base_name_start, views, contains_str};

verus! {

/// The staged paths after staging `p`: appended unless already there.
pub open spec fn staged_after(staged: Seq<Seq<char>>, p: Seq<char>) -> Seq<Seq<char>> {
    if staged.contains(p) {
        staged
    } else {
        staged.push(p)
    }
}

/// Stages a path unless it is already staged; returns whether it was added.
pub fn stage(staged: &mut Vec<String>, path: String) -> (added: bool)
    ensures
        added == !views(old(staged)@).contains(path@),
        views(final(staged)@) == staged_after(views(old(staged)@), path@),
{
    if contains_str(staged, &path) {
        return false;
    }
    let ghost before = views(staged@);
    staged.push(path);
    assert(views(staged@) =~= before.push(path@));
    true
}

/// The staged paths whose final component names no entry of the working
/// directory, in staging order.
pub open spec fn transfer_paths(staged: Seq<Seq<char>>, present: Seq<Seq<char>>) -> Seq<Seq<char>>
    decreases staged.len(),
{
    if staged.len() == 0 {
        seq![]
    } else {
        let prev = transfer_paths(staged.drop_last(), present);
        if present.contains(base_name(staged.last())) {
            prev
        } else {
            prev.push(staged.last())
        }
    }
}

/// Returns the final component of a path.
pub fn file_name_of(path: &str) -> (r: String)
    ensures
        r@ == base_name(path@),
{
    let start = base_name_start(path);
    String::from_str(path.substring_char(start, path.unicode_len()))
}

/// The staged paths to copy or move into the working directory, whose
/// entries are `present`: those whose name collides with an entry are
/// skipped.
pub fn paths_to_transfer(staged: &Vec<String>, present: &Vec<String>) -> (r: Vec<String>)
    ensures
        views(r@) == transfer_paths(views(staged@), views(present@)),
{
    let ghost sv = views(staged@);
    let mut out: Vec<String> = Vec::new();
    let mut i: usize = 0;
    while i < staged.len()
        invariant
            i <= staged.len(),
            sv == views(staged@),
            views(out@) == transfer_paths(sv.subrange(0, i as int), views(present@)),
        decreases staged.len() - i,
    {
        assert(sv.subrange(0, i + 1).drop_last() =~= sv.subrange(0, i as int));
        assert(sv.subrange(0, i + 1).last() == staged@[i as int]@);
        let name = file_name_of(staged[i].as_str());
        if !contains_str(present, &name) {
            let ghost before = views(out@);
            out.push(staged[i].clone());
            assert(views(out@) =~= before.push(staged@[i as int]@));
        }
        i = i + 1;
    }
    assert(sv.subrange(0, staged.len() as int) =~= sv);
    out
}

} // verus!
