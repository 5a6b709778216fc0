//! The configuration file: `key=value` lines; `show_hidden` takes `true` or
//! `false`, `excluded_directories` a comma-separated list of names. Other
//! lines are ignored.

use vstd::prelude::*;
use vstd::string::{StrSliceExecFns, StringExecFns};
use crate::text::{lines_of, split_lines, views};

verus! {

/// Whether `c` is white space (the Unicode White_Space characters), which
/// is trimmed around keys, values and names.
pub open spec fn is_blank(c: char) -> bool {
    ('\t' <= c && c <= '\r') || c == ' ' || c == '\u{85}' || c == '\u{A0}' || c == '\u{1680}'
        || ('\u{2000}' <= c && c <= '\u{200A}') || c == '\u{2028}' || c == '\u{2029}' || c
        == '\u{202F}' || c == '\u{205F}' || c == '\u{3000}'
}

/// `s` without its leading blanks.
pub open spec fn trim_start(s: Seq<char>) -> Seq<char>
    decreases s.len(),
{
    if s.len() > 0 && is_blank(s[0]) {
        trim_start(s.drop_first())
    } else {
        s
    }
}

/// `s` without its trailing blanks.
pub open spec fn trim_end(s: Seq<char>) -> Seq<char>
    decreases s.len(),
{
    if s.len() > 0 && is_blank(s.last()) {
        trim_end(s.drop_last())
    } else {
        s
    }
}

/// `s` without its leading and trailing blanks.
pub open spec fn trim(s: Seq<char>) -> Seq<char> {
    trim_end(trim_start(s))
}

/// The pieces of `s` between occurrences of `sep` (one more than there are
/// separators).
pub open spec fn split_on(s: Seq<char>, sep: char) -> Seq<Seq<char>>
    decreases s.len(),
{
    if s.len() == 0 {
        seq![seq![]]
    } else {
        let p = split_on(s.drop_last(), sep);
        if s.last() == sep {
            p.push(seq![])
        } else {
            p.drop_last().push(p.last().push(s.last()))
        }
    }
}

/// Whether `v` is `true` in any ASCII case.
pub open spec fn is_true_word(v: Seq<char>) -> bool {
    &&& v.len() == 4
    &&& (v[0] == 't' || v[0] == 'T')
    &&& (v[1] == 'r' || v[1] == 'R')
    &&& (v[2] == 'u' || v[2] == 'U')
    &&& (v[3] == 'e' || v[3] == 'E')
}

/// The trimmed pieces that are not empty, in order.
pub open spec fn names_of(pieces: Seq<Seq<char>>) -> Seq<Seq<char>>
    decreases pieces.len(),
{
    if pieces.len() == 0 {
        seq![]
    } else {
        let prev = names_of(pieces.drop_last());
        if trim(pieces.last()).len() > 0 {
            prev.push(trim(pieces.last()))
        } else {
            prev
        }
    }
}

/// The settings after one line: its key is what precedes the first `=`,
/// its value what lies between the first `=` and the next, both trimmed.
pub open spec fn apply_line(
    show_hidden: bool,
    excluded: Seq<Seq<char>>,
    line: Seq<char>,
) -> (bool, Seq<Seq<char>>) {
    let parts = split_on(line, '=');
    if parts.len() < 2 {
        (show_hidden, excluded)
    } else if trim(parts[0]) == "show_hidden"@ {
        (is_true_word(trim(parts[1])), excluded)
    } else if trim(parts[0]) == "excluded_directories"@ {
        (show_hidden, excluded + names_of(split_on(trim(parts[1]), ',')))
    } else {
        (show_hidden, excluded)
    }
}

/// The settings that the lines give, starting from hidden entries not
/// shown and nothing excluded.
pub open spec fn settings_of(lines: Seq<Seq<char>>) -> (bool, Seq<Seq<char>>)
    decreases lines.len(),
{
    if lines.len() == 0 {
        (false, seq![])
    } else {
        let prev = settings_of(lines.drop_last());
        apply_line(prev.0, prev.1, lines.last())
    }
}

/// The browser's settings.
pub struct Config {
    pub show_hidden: bool,
    pub excluded_directories: Vec<String>,
}

proof fn lemma_trim_start_skip(s: Seq<char>, a: int)
    requires
        0 <= a <= s.len(),
        forall|k: int| 0 <= k < a ==> is_blank(s[k]),
        a == s.len() || !is_blank(s[a]),
    ensures
        trim_start(s) == s.skip(a),
    decreases a,
{
    if a == 0 {
        assert(s.skip(0) =~= s);
    } else {
        lemma_trim_start_skip(s.drop_first(), a - 1);
        assert(s.drop_first().skip(a - 1) =~= s.skip(a));
    }
}

proof fn lemma_trim_end_take(s: Seq<char>, b: int)
    requires
        0 <= b <= s.len(),
        forall|k: int| b <= k < s.len() ==> is_blank(s[k]),
        b == 0 || !is_blank(s[b - 1]),
    ensures
        trim_end(s) == s.take(b),
    decreases s.len() - b,
{
    if b == s.len() {
        assert(s.take(b) =~= s);
    } else {
        lemma_trim_end_take(s.drop_last(), b);
        assert(s.drop_last().take(b) =~= s.take(b));
    }
}

/// Returns `s` without leading and trailing blanks.
pub fn trim_blanks(s: &str) -> (r: String)
    ensures
        r@ == trim(s@),
{
    let n = s.unicode_len();
    let mut a: usize = 0;
    while a < n && is_blank_char(s.get_char(a))
        invariant
            n == s@.len(),
            a <= n,
            forall|k: int| 0 <= k < a ==> is_blank(s@[k]),
        decreases n - a,
    {
        a = a + 1;
    }
    proof {
        lemma_trim_start_skip(s@, a as int);
    }
    let mut b: usize = n;
    while b > a && is_blank_char(s.get_char(b - 1))
        invariant
            n == s@.len(),
            a <= b <= n,
            forall|k: int| b <= k < n ==> is_blank(s@[k]),
        decreases b,
    {
        b = b - 1;
    }
    proof {
        let t = s@.skip(a as int);
        assert forall|k: int| b - a <= k < t.len() implies is_blank(t[k]) by {
            assert(t[k] == s@[k + a]);
        }
        lemma_trim_end_take(t, b - a);
        assert(t.take(b - a) =~= s@.subrange(a as int, b as int));
    }
    String::from_str(s.substring_char(a, b))
}

fn is_blank_char(c: char) -> (r: bool)
    ensures
        r == is_blank(c),
{
    ('\t' <= c && c <= '\r') || c == ' ' || c == '\u{85}' || c == '\u{A0}' || c == '\u{1680}'
        || ('\u{2000}' <= c && c <= '\u{200A}') || c == '\u{2028}' || c == '\u{2029}' || c
        == '\u{202F}' || c == '\u{205F}' || c == '\u{3000}'
}

proof fn lemma_split_nonempty(s: Seq<char>, sep: char)
    ensures
        split_on(s, sep).len() >= 1,
    decreases s.len(),
{
    if s.len() > 0 {
        lemma_split_nonempty(s.drop_last(), sep);
    }
}

/// Splits `s` at every occurrence of `sep`.
pub fn split_at_char(s: &str, sep: char) -> (r: Vec<String>)
    ensures
        views(r@) == split_on(s@, sep),
{
    let n = s.unicode_len();
    let mut out: Vec<String> = Vec::new();
    let mut start: usize = 0;
    let mut i: usize = 0;
    assert(s@.take(0) =~= Seq::<char>::empty());
    assert(views(out@).push(s@.subrange(0, 0)) =~= seq![seq![]]);
    while i < n
        invariant
            n == s@.len(),
            start <= i <= n,
            split_on(s@.take(i as int), sep) == views(out@).push(s@.subrange(
                start as int,
                i as int,
            )),
        decreases n - i,
    {
        assert(s@.take(i + 1).drop_last() =~= s@.take(i as int));
        assert(s@.take(i + 1).last() == s@[i as int]);
        let ghost prev = views(out@).push(s@.subrange(start as int, i as int));
        if s.get_char(i) == sep {
            let piece = String::from_str(s.substring_char(start, i));
            let ghost before = views(out@);
            out.push(piece);
            assert(views(out@) =~= before.push(s@.subrange(start as int, i as int)));
            assert(views(out@) == prev);
            start = i + 1;
            assert(s@.subrange(start as int, i + 1) =~= Seq::<char>::empty());
        } else {
            assert(prev.drop_last() =~= views(out@));
            assert(prev.last() == s@.subrange(start as int, i as int));
            assert(s@.subrange(start as int, i as int).push(s@[i as int]) =~= s@.subrange(
                start as int,
                i + 1,
            ));
        }
        i = i + 1;
    }
    assert(s@.take(n as int) =~= s@);
    let last = String::from_str(s.substring_char(start, n));
    let ghost before = views(out@);
    out.push(last);
    assert(views(out@) =~= before.push(s@.subrange(start as int, n as int)));
    out
}

/// Tests whether a key is the given name.
fn is_key(key: &String, name: &str) -> (r: bool)
    ensures
        r == (key@ == name@),
{
    let n = String::from_str(name);
    *key == n
}

/// Tests whether a value is `true` in any ASCII case.
fn is_true_value(v: &str) -> (r: bool)
    ensures
        r == is_true_word(v@),
{
    if v.unicode_len() != 4 {
        return false;
    }
    let c0 = v.get_char(0);
    let c1 = v.get_char(1);
    let c2 = v.get_char(2);
    let c3 = v.get_char(3);
    (c0 == 't' || c0 == 'T') && (c1 == 'r' || c1 == 'R') && (c2 == 'u' || c2 == 'U') && (c3
        == 'e' || c3 == 'E')
}

/// Appends the trimmed, non-empty pieces of a comma-separated list.
fn push_names(out: &mut Vec<String>, list: &str)
    ensures
        views(final(out)@) == views(old(out)@) + names_of(split_on(list@, ',')),
{
    let pieces = split_at_char(list, ',');
    let ghost pv = views(pieces@);
    let ghost start = views(out@);
    let mut i: usize = 0;
    assert(pv.subrange(0, 0) =~= Seq::<Seq<char>>::empty());
    assert(start + names_of(Seq::<Seq<char>>::empty()) =~= start);
    while i < pieces.len()
        invariant
            i <= pieces.len(),
            pv == views(pieces@),
            views(out@) == start + names_of(pv.subrange(0, i as int)),
        decreases pieces.len() - i,
    {
        assert(pv.subrange(0, i + 1).drop_last() =~= pv.subrange(0, i as int));
        assert(pv.subrange(0, i + 1).last() == pieces@[i as int]@);
        let name = trim_blanks(pieces[i].as_str());
        if name.unicode_len() > 0 {
            let ghost before = views(out@);
            out.push(name);
            assert(views(out@) =~= before.push(name@));
            assert(start + names_of(pv.subrange(0, i as int)).push(name@) =~= start + names_of(
                pv.subrange(0, i + 1),
            ));
        }
        i = i + 1;
    }
    assert(pv.subrange(0, pieces.len() as int) =~= pv);
}

/// Reads the settings from the configuration file's text.
pub fn parse_config(text: &str) -> (r: Config)
    ensures
        (r.show_hidden, views(r.excluded_directories@)) == settings_of(lines_of(text@)),
{
    let lines = split_lines(text);
    let ghost lv = views(lines@);
    let mut show_hidden = false;
    let mut excluded: Vec<String> = Vec::new();
    let mut i: usize = 0;
    assert(lv.subrange(0, 0) =~= Seq::<Seq<char>>::empty());
    while i < lines.len()
        invariant
            i <= lines.len(),
            lv == views(lines@),
            lv == lines_of(text@),
            (show_hidden, views(excluded@)) == settings_of(lv.subrange(0, i as int)),
        decreases lines.len() - i,
    {
        assert(lv.subrange(0, i + 1).drop_last() =~= lv.subrange(0, i as int));
        assert(lv.subrange(0, i + 1).last() == lines@[i as int]@);
        let parts = split_at_char(lines[i].as_str(), '=');
        if parts.len() >= 2 {
            let key = trim_blanks(parts[0].as_str());
            let value = trim_blanks(parts[1].as_str());
            assert(views(parts@)[0] == parts@[0]@);
            assert(views(parts@)[1] == parts@[1]@);
            if is_key(&key, "show_hidden") {
                show_hidden = is_true_value(value.as_str());
            } else if is_key(&key, "excluded_directories") {
                push_names(&mut excluded, value.as_str());
            }
        }
        i = i + 1;
    }
    assert(lv.subrange(0, lines.len() as int) =~= lv);
    Config { show_hidden, excluded_directories: excluded }
}

} // verus!
