//! Character-level helpers over strings and their models.

use vstd::prelude::*;

verus! {

/// The pieces of `s` between `sep` separators (one more than the number of
/// separators).
pub open spec fn split(s: Seq<char>, sep: char) -> Seq<Seq<char>>
    decreases s.len(),
{
    if s.len() == 0 {
        seq![Seq::<char>::empty()]
    } else {
        let prev = split(s.drop_last(), sep);
        if s.last() == sep {
            prev.push(Seq::<char>::empty())
        } else {
            prev.update(prev.len() - 1, prev.last().push(s.last()))
        }
    }
}

pub proof fn lemma_split_step(s: Seq<char>, sep: char, i: int)
    requires
        0 <= i < s.len(),
    ensures
        split(s.subrange(0, i + 1), sep) == if s[i] == sep {
            split(s.subrange(0, i), sep).push(Seq::<char>::empty())
        } else {
            let prev = split(s.subrange(0, i), sep);
            prev.update(prev.len() - 1, prev.last().push(s[i]))
        },
{
    assert(s.subrange(0, i + 1).drop_last() == s.subrange(0, i));
}

pub proof fn lemma_split_nonempty(s: Seq<char>, sep: char)
    ensures
        split(s, sep).len() >= 1,
    decreases s.len(),
{
    if s.len() > 0 {
        lemma_split_nonempty(s.drop_last(), sep);
    }
}

/// The pieces of a prefix of `s`, but its last (possibly unfinished) one,
/// are pieces of `s` at the same places.
pub proof fn lemma_split_prefix(s: Seq<char>, sep: char, j: int)
    requires
        0 <= j <= s.len(),
    ensures
        split(s, sep).len() >= split(s.subrange(0, j), sep).len(),
        forall|k: int|
            0 <= k < split(s.subrange(0, j), sep).len() - 1 ==> #[trigger] split(s, sep)[k] == split(
                s.subrange(0, j),
                sep,
            )[k],
    decreases s.len() - j,
{
    if j < s.len() {
        lemma_split_prefix(s, sep, j + 1);
        lemma_split_step(s, sep, j);
        lemma_split_nonempty(s.subrange(0, j), sep);
    } else {
        assert(s.subrange(0, j) == s);
    }
}

/// A text without separators is one piece.
pub proof fn lemma_split_without_separator(s: Seq<char>, sep: char)
    requires
        forall|i: int| 0 <= i < s.len() ==> s[i] != sep,
    ensures
        split(s, sep) == seq![s],
    decreases s.len(),
{
    if s.len() > 0 {
        lemma_split_without_separator(s.drop_last(), sep);
        assert(s.drop_last().push(s.last()) =~= s);
        assert(s[s.len() - 1] != sep);
        assert(seq![s.drop_last()].update(0, s.drop_last().push(s.last())) =~= seq![s]);
    } else {
        assert(s =~= Seq::<char>::empty());
    }
}

/// `p` is a prefix of `s`.
pub open spec fn is_prefix(p: Seq<char>, s: Seq<char>) -> bool {
    p.len() <= s.len() && s.subrange(0, p.len() as int) == p
}

/// `path` lies strictly below the directory `dir` (separator `/`).
pub open spec fn is_below(path: Seq<char>, dir: Seq<char>) -> bool {
    is_prefix(dir.push('/'), path)
}

/// `path` is `dir` itself or lies below it.
pub open spec fn is_within(path: Seq<char>, dir: Seq<char>) -> bool {
    path == dir || is_below(path, dir)
}

pub open spec fn is_ascii_digit(c: char) -> bool {
    '0' <= c <= '9'
}

pub open spec fn is_ascii_alphanumeric(c: char) -> bool {
    ||| 'a' <= c <= 'z'
    ||| 'A' <= c <= 'Z'
    ||| is_ascii_digit(c)
}

/// Whether `s` starts with `p`.
pub fn starts_with(s: &str, p: &str) -> (r: bool)
    ensures
        r == is_prefix(p@, s@),
{
    let n = s.unicode_len();
    let m = p.unicode_len();
    if m > n {
        return false;
    }
    let mut i: usize = 0;
    while i < m
        invariant
            m <= n,
            n == s@.len(),
            m == p@.len(),
            i <= m,
            s@.subrange(0, i as int) == p@.subrange(0, i as int),
        decreases m - i,
    {
        if s.get_char(i) != p.get_char(i) {
            assert(s@.subrange(0, m as int)[i as int] != p@[i as int]);
            return false;
        }
        assert(s@.subrange(0, i + 1) == s@.subrange(0, i as int).push(s@[i as int]));
        assert(p@.subrange(0, i + 1) == p@.subrange(0, i as int).push(p@[i as int]));
        i = i + 1;
    }
    assert(p@.subrange(0, m as int) == p@);
    true
}

/// Whether `path` lies strictly below the directory `dir`.
pub fn below(path: &str, dir: &str) -> (r: bool)
    ensures
        r == is_below(path@, dir@),
{
    let n = path.unicode_len();
    let m = dir.unicode_len();
    let ghost d = dir@.push('/');
    if m >= n {
        return false;
    }
    if !starts_with(path, dir) {
        proof {
            if is_prefix(d, path@) {
                assert(path@.subrange(0, m as int) =~= path@.subrange(0, d.len() as int).subrange(
                    0,
                    m as int,
                ));
                assert(d.subrange(0, m as int) =~= dir@);
            }
        }
        return false;
    }
    let c = path.get_char(m);
    proof {
        if c == '/' {
            assert(path@.subrange(0, m + 1) =~= path@.subrange(0, m as int).push('/'));
        } else {
            assert(path@.subrange(0, d.len() as int)[m as int] != d[m as int]);
        }
    }
    c == '/'
}

/// Whether `a` and `b` hold the same characters.
pub fn same_text(a: &str, b: &str) -> (r: bool)
    ensures
        r == (a@ == b@),
{
    if a.unicode_len() != b.unicode_len() {
        return false;
    }
    let r = starts_with(a, b);
    proof {
        assert(a@.subrange(0, b@.len() as int) =~= a@);
    }
    r
}

} // verus!
