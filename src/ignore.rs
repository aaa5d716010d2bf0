//! Exclusion rules: the flat ignore-list file and the choice between it and
//! the version-control ignore engine.

use vstd::prelude::*;
use crate::text::{is_prefix, lemma_split_step, split, starts_with};

verus! {

/// Name of the ignore-list file in the project root.
pub const IGNORE_FILE: &'static str = ".customsignore";

/// The lines of `s`: the pieces between `\n` separators.
pub open spec fn lines(s: Seq<char>) -> Seq<Seq<char>> {
    split(s, '\n')
}

pub open spec fn is_blank_char(c: char) -> bool {
    c == ' ' || c == '\t' || c == '\r'
}

pub open spec fn trim_start(l: Seq<char>) -> Seq<char>
    decreases l.len(),
{
    if l.len() > 0 && is_blank_char(l[0]) {
        trim_start(l.drop_first())
    } else {
        l
    }
}

pub open spec fn trim_end(l: Seq<char>) -> Seq<char>
    decreases l.len(),
{
    if l.len() > 0 && is_blank_char(l.last()) {
        trim_end(l.drop_last())
    } else {
        l
    }
}

/// `l` without leading and trailing spaces, tabs and carriage returns.
pub open spec fn trim(l: Seq<char>) -> Seq<char> {
    trim_end(trim_start(l))
}

/// A trimmed line that names a prefix: neither blank nor a `#` comment.
pub open spec fn is_entry(l: Seq<char>) -> bool {
    l.len() > 0 && l[0] != '#'
}

/// The entries among trimmed lines, in order.
pub open spec fn entries_of(ls: Seq<Seq<char>>) -> Seq<Seq<char>>
    decreases ls.len(),
{
    if ls.len() == 0 {
        Seq::empty()
    } else {
        let prev = entries_of(ls.drop_last());
        if is_entry(ls.last()) {
            prev.push(ls.last())
        } else {
            prev
        }
    }
}

/// The prefixes that an ignore-list file names: each line trimmed, blank
/// lines and `#` comments skipped.
pub open spec fn ignore_entries(text: Seq<char>) -> Seq<Seq<char>> {
    entries_of(lines(text).map_values(|l: Seq<char>| trim(l)))
}

pub open spec fn string_views(v: Seq<String>) -> Seq<Seq<char>> {
    v.map_values(|s: String| s@)
}

/// Which engine decides that a path is excluded.
pub enum IgnorePolicy {
    /// The flat ignore-list file: a path is excluded when it starts with one
    /// of these prefixes. No wildcards, no negation; a prefix may match more
    /// than a directory (`doc` also excludes `docs`).
    Prefixes(Vec<String>),
    /// The version-control ignore engine, consulted per path by the caller.
    Vcs,
}

/// Whether the policy excludes `path`, where `vcs_ignored` is what the
/// version-control engine says of it.
pub open spec fn excluded_by(policy: IgnorePolicy, path: Seq<char>, vcs_ignored: bool) -> bool {
    match policy {
        IgnorePolicy::Prefixes(ps) => exists|k: int|
            0 <= k < ps@.len() && is_prefix(#[trigger] ps@[k]@, path),
        IgnorePolicy::Vcs => vcs_ignored,
    }
}

fn is_blank(c: char) -> (r: bool)
    ensures
        r == is_blank_char(c),
{
    c == ' ' || c == '\t' || c == '\r'
}

fn trimmed(l: &str) -> (r: String)
    ensures
        r@ == trim(l@),
{
    let n = l.unicode_len();
    let mut lo: usize = 0;
    assert(l@.subrange(0, n as int) == l@);
    while lo < n && is_blank(l.get_char(lo))
        invariant
            n == l@.len(),
            lo <= n,
            trim_start(l@) == trim_start(l@.subrange(lo as int, n as int)),
        decreases n - lo,
    {
        let ghost rest = l@.subrange(lo as int, n as int);
        assert(rest.drop_first() == l@.subrange(lo + 1, n as int));
        lo = lo + 1;
    }
    assert(trim_start(l@) == l@.subrange(lo as int, n as int)) by {
        let rest = l@.subrange(lo as int, n as int);
        if rest.len() > 0 {
            assert(rest[0] == l@[lo as int]);
        }
    }
    let mut hi: usize = n;
    while hi > lo && is_blank(l.get_char(hi - 1))
        invariant
            n == l@.len(),
            lo <= hi <= n,
            trim(l@) == trim_end(l@.subrange(lo as int, hi as int)),
        decreases hi - lo,
    {
        let ghost rest = l@.subrange(lo as int, hi as int);
        assert(rest.drop_last() == l@.subrange(lo as int, hi - 1));
        hi = hi - 1;
    }
    assert(trim(l@) == l@.subrange(lo as int, hi as int)) by {
        let rest = l@.subrange(lo as int, hi as int);
        if rest.len() > 0 {
            assert(rest.last() == l@[hi - 1]);
        }
    }
    String::from_str(l.substring_char(lo, hi))
}

/// Reads an ignore-list file: one prefix per line, lines trimmed of spaces,
/// tabs and carriage returns, blank lines and `#` comments skipped.
pub fn parse_ignore_list(text: &str) -> (r: Vec<String>)
    ensures
        string_views(r@) == ignore_entries(text@),
{
    let n = text.unicode_len();
    let mut out: Vec<String> = Vec::new();
    let mut start: usize = 0;
    let mut i: usize = 0;
    let ghost mut done: Seq<Seq<char>> = Seq::empty();
    proof {
        assert(text@.subrange(0, 0) == Seq::<char>::empty());
        assert(split(Seq::<char>::empty(), '\n') == seq![Seq::<char>::empty()]);
        assert(done.push(text@.subrange(0, 0)) == seq![Seq::<char>::empty()]);
    }
    while i < n
        invariant
            n == text@.len(),
            start <= i <= n,
            lines(text@.subrange(0, i as int)) == done.push(text@.subrange(start as int, i as int)),
            string_views(out@) == entries_of(done.map_values(|l: Seq<char>| trim(l))),
        decreases n - i,
    {
        proof {
            lemma_split_step(text@, '\n', i as int);
        }
        let c = text.get_char(i);
        if c == '\n' {
            let line = trimmed(text.substring_char(start, i));
            let ghost cur = text@.subrange(start as int, i as int);
            proof {
                assert(done.push(cur).map_values(|l: Seq<char>| trim(l)) == done.map_values(
                    |l: Seq<char>| trim(l),
                ).push(trim(cur)));
                assert(done.push(cur).map_values(|l: Seq<char>| trim(l)).drop_last()
                    == done.map_values(|l: Seq<char>| trim(l)));
            }
            if line.unicode_len() > 0 && line.as_str().get_char(0) != '#' {
                let ghost before = out@;
                out.push(line);
                proof {
                    assert(string_views(out@) == string_views(before).push(line@));
                }
            }
            proof {
                done = done.push(cur);
                assert(text@.subrange(i + 1, i + 1) == Seq::<char>::empty());
            }
            start = i + 1;
        } else {
            proof {
                assert(text@.subrange(start as int, i + 1) == text@.subrange(
                    start as int,
                    i as int,
                ).push(c));
            }
        }
        i = i + 1;
    }
    let line = trimmed(text.substring_char(start, n));
    let ghost cur = text@.subrange(start as int, n as int);
    proof {
        assert(text@.subrange(0, n as int) == text@);
        assert(done.push(cur).map_values(|l: Seq<char>| trim(l)) == done.map_values(
            |l: Seq<char>| trim(l),
        ).push(trim(cur)));
        assert(done.push(cur).map_values(|l: Seq<char>| trim(l)).drop_last() == done.map_values(
            |l: Seq<char>| trim(l),
        ));
    }
    if line.unicode_len() > 0 && line.as_str().get_char(0) != '#' {
        let ghost before = out@;
        out.push(line);
        proof {
            assert(string_views(out@) == string_views(before).push(line@));
        }
    }
    out
}

/// Whether some prefix in `ps` opens `path`.
pub fn matches_prefix(ps: &Vec<String>, path: &str) -> (r: bool)
    ensures
        r == exists|k: int| 0 <= k < ps@.len() && is_prefix(#[trigger] ps@[k]@, path@),
{
    let mut k: usize = 0;
    while k < ps.len()
        invariant
            k <= ps@.len(),
            forall|j: int| 0 <= j < k ==> !is_prefix(#[trigger] ps@[j]@, path@),
        decreases ps@.len() - k,
    {
        if starts_with(path, ps[k].as_str()) {
            assert(is_prefix(ps@[k as int]@, path@));
            return true;
        }
        k = k + 1;
    }
    false
}

impl IgnorePolicy {
    /// Whether this policy excludes `path` (relative to the project root).
    /// `vcs_ignored` is the version-control engine's answer for the path and
    /// matters only under `Vcs`.
    pub fn excludes(&self, path: &str, vcs_ignored: bool) -> (r: bool)
        ensures
            r == excluded_by(*self, path@, vcs_ignored),
    {
        match self {
            IgnorePolicy::Prefixes(ps) => matches_prefix(ps, path),
            IgnorePolicy::Vcs => vcs_ignored,
        }
    }
}

} // verus!
