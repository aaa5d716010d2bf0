//! Selection of archive entries from the paths that a walk of the project
//! tree yields.

use vstd::prelude::*;
use crate::text::{is_below, is_prefix, is_within, below, same_text};
use crate::ignore::{IgnorePolicy, excluded_by};

verus! {

/// A path found under the project root (never the root itself), relative to
/// it with `/` separators.
pub struct Candidate {
    pub path: String,
    pub is_dir: bool,
    /// What the version-control ignore engine says of the path.
    pub vcs_ignored: bool,
}

/// One record of the archive: a directory or a stored file.
pub struct ArchiveEntry {
    pub path: String,
    pub is_dir: bool,
}

pub open spec fn entry_view(e: ArchiveEntry) -> (Seq<char>, bool) {
    (e.path@, e.is_dir)
}

pub open spec fn candidate_entry(c: Candidate) -> (Seq<char>, bool) {
    (c.path@, c.is_dir)
}

/// The repository's own directory, never part of a package.
pub const VCS_DIR: &'static str = ".git";

/// The candidate itself is left out: it is the target directory or the
/// repository's directory or lies in one of them, or the ignore policy
/// excludes it.
pub open spec fn rejected(policy: IgnorePolicy, target: Seq<char>, c: Candidate) -> bool {
    is_within(c.path@, target) || is_within(c.path@, VCS_DIR@) || excluded_by(
        policy,
        c.path@,
        c.vcs_ignored,
    )
}

/// The candidate lies below a directory of `all` that is left out.
pub open spec fn pruned(policy: IgnorePolicy, target: Seq<char>, all: Seq<Candidate>, c: Candidate) -> bool {
    exists|d: Candidate|
        #[trigger] all.contains(d) && d.is_dir && rejected(policy, target, d) && is_below(c.path@, d.path@)
}

pub open spec fn admitted(policy: IgnorePolicy, target: Seq<char>, all: Seq<Candidate>, c: Candidate) -> bool {
    !rejected(policy, target, c) && !pruned(policy, target, all, c)
}

/// The candidates of `s` that `all` admits, in order.
pub open spec fn selected(policy: IgnorePolicy, target: Seq<char>, all: Seq<Candidate>, s: Seq<Candidate>) -> Seq<Candidate>
    decreases s.len(),
{
    if s.len() == 0 {
        Seq::empty()
    } else {
        let prev = selected(policy, target, all, s.drop_last());
        if admitted(policy, target, all, s.last()) {
            prev.push(s.last())
        } else {
            prev
        }
    }
}

/// The archive entries for a walk that yielded `all`.
pub open spec fn selection(policy: IgnorePolicy, target: Seq<char>, all: Seq<Candidate>) -> Seq<(Seq<char>, bool)> {
    selected(policy, target, all, all).map_values(|c: Candidate| candidate_entry(c))
}

/// Whether `c` is left out by itself: it is the target directory or the
/// repository's directory or lies in one of them, or the policy excludes it. A walk need not descend into a directory
/// for which this holds.
pub fn rejects(policy: &IgnorePolicy, target: &str, c: &Candidate) -> (r: bool)
    ensures
        r == rejected(*policy, target@, *c),
{
    same_text(c.path.as_str(), target) || below(c.path.as_str(), target) || same_text(
        c.path.as_str(),
        VCS_DIR,
    ) || below(c.path.as_str(), VCS_DIR) || policy.excludes(
        c.path.as_str(),
        c.vcs_ignored,
    )
}

fn under_any(dirs: &Vec<&Candidate>, path: &str) -> (r: bool)
    ensures
        r == exists|k: int| 0 <= k < dirs@.len() && is_below(path@, (#[trigger] dirs@[k]).path@),
{
    let mut k: usize = 0;
    while k < dirs.len()
        invariant
            k <= dirs@.len(),
            forall|j: int| 0 <= j < k ==> !is_below(path@, (#[trigger] dirs@[j]).path@),
        decreases dirs@.len() - k,
    {
        if below(path, dirs[k].path.as_str()) {
            assert(is_below(path@, dirs@[k as int].path@));
            return true;
        }
        k = k + 1;
    }
    false
}

/// The archive entries for the candidates of one walk, in walk order: every
/// candidate that is not left out by itself and does not lie below a
/// directory of the walk that is left out.
pub fn select_entries(policy: &IgnorePolicy, target: &str, cands: &Vec<Candidate>) -> (r: Vec<ArchiveEntry>)
    ensures
        r@.map_values(|e: ArchiveEntry| entry_view(e)) == selection(*policy, target@, cands@),
{
    let mut dirs: Vec<&Candidate> = Vec::new();
    let mut i: usize = 0;
    while i < cands.len()
        invariant
            i <= cands@.len(),
            forall|k: int| 0 <= k < dirs@.len() ==> #[trigger] cands@.contains(*dirs@[k]) && dirs@[k].is_dir
                && rejected(*policy, target@, *dirs@[k]),
            forall|j: int| 0 <= j < i && (#[trigger] cands@[j]).is_dir && rejected(*policy, target@, cands@[j])
                ==> exists|k: int| 0 <= k < dirs@.len() && *dirs@[k] == cands@[j],
        decreases cands@.len() - i,
    {
        let c = &cands[i];
        let ghost old_dirs = dirs@;
        let rejected_dir = c.is_dir && rejects(policy, target, c);
        if rejected_dir {
            dirs.push(c);
        }
        proof {
            assert forall|j: int|
                0 <= j < i + 1 && (#[trigger] cands@[j]).is_dir && rejected(
                    *policy,
                    target@,
                    cands@[j],
                ) implies exists|k: int| 0 <= k < dirs@.len() && *dirs@[k] == cands@[j] by {
                if j < i {
                    let k = choose|k: int| 0 <= k < old_dirs.len() && *old_dirs[k] == cands@[j];
                    assert(dirs@[k] == old_dirs[k]);
                } else {
                    assert(*dirs@[dirs@.len() - 1] == cands@[j]);
                }
            }
            assert forall|k: int| 0 <= k < dirs@.len() implies #[trigger] cands@.contains(
                *dirs@[k],
            ) && dirs@[k].is_dir && rejected(*policy, target@, *dirs@[k]) by {
                if k < old_dirs.len() {
                    assert(dirs@[k] == old_dirs[k]);
                    assert(cands@.contains(*old_dirs[k]));
                } else {
                    assert(rejected_dir);
                    assert(*dirs@[k] == *c);
                    assert(cands@[i as int] == *c);
                    assert(cands@.contains(*c));
                }
            }
        }
        i = i + 1;
    }
    let ghost all = cands@;
    let mut out: Vec<ArchiveEntry> = Vec::new();
    let mut i: usize = 0;
    while i < cands.len()
        invariant
            all == cands@,
            i <= cands@.len(),
            forall|k: int| 0 <= k < dirs@.len() ==> #[trigger] cands@.contains(*dirs@[k]) && dirs@[k].is_dir
                && rejected(*policy, target@, *dirs@[k]),
            forall|j: int| 0 <= j < cands@.len() && (#[trigger] cands@[j]).is_dir && rejected(*policy, target@, cands@[j])
                ==> exists|k: int| 0 <= k < dirs@.len() && *dirs@[k] == cands@[j],
            out@.map_values(|e: ArchiveEntry| entry_view(e)) == selected(*policy, target@, all, all.take(i as int)).map_values(
                |c: Candidate| candidate_entry(c),
            ),
        decreases cands@.len() - i,
    {
        let c = &cands[i];
        let keep = !rejects(policy, target, c) && !under_any(&dirs, c.path.as_str());
        proof {
            assert(all.take(i + 1).drop_last() == all.take(i as int));
            assert(all.take(i + 1).last() == *c);
            if pruned(*policy, target@, all, *c) {
                let d = choose|d: Candidate| #[trigger] all.contains(d) && d.is_dir && rejected(*policy, target@, d) && is_below(c.path@, d.path@);
                let j = choose|j: int| 0 <= j < all.len() && all[j] == d;
                assert(cands@[j].is_dir);
                let k = choose|k: int| 0 <= k < dirs@.len() && *dirs@[k] == cands@[j];
                assert(is_below(c.path@, dirs@[k].path@));
            }
            if exists|k: int| 0 <= k < dirs@.len() && is_below(c.path@, (#[trigger] dirs@[k]).path@) {
                let k = choose|k: int| 0 <= k < dirs@.len() && is_below(c.path@, (#[trigger] dirs@[k]).path@);
                assert(all.contains(*dirs@[k]));
            }
            assert(keep == admitted(*policy, target@, all, *c));
        }
        if keep {
            let ghost before = out@;
            out.push(ArchiveEntry { path: c.path.clone(), is_dir: c.is_dir });
            proof {
                assert(out@.map_values(|e: ArchiveEntry| entry_view(e)) == before.map_values(
                    |e: ArchiveEntry| entry_view(e),
                ).push(candidate_entry(*c)));
                let s = selected(*policy, target@, all, all.take(i as int));
                assert(s.push(*c).map_values(|c: Candidate| candidate_entry(c)) == s.map_values(
                    |c: Candidate| candidate_entry(c),
                ).push(candidate_entry(*c)));
            }
        }
        i = i + 1;
    }
    assert(all.take(all.len() as int) == all);
    out
}

proof fn lemma_selected_contains(
    policy: IgnorePolicy,
    target: Seq<char>,
    all: Seq<Candidate>,
    s: Seq<Candidate>,
    x: Candidate,
)
    ensures
        selected(policy, target, all, s).contains(x) <==> s.contains(x) && admitted(policy, target, all, x),
    decreases s.len(),
{
    if s.len() > 0 {
        lemma_selected_contains(policy, target, all, s.drop_last(), x);
        let prev = selected(policy, target, all, s.drop_last());
        if s.contains(x) && x != s.last() {
            let i = choose|i: int| 0 <= i < s.len() && s[i] == x;
            assert(s.drop_last()[i] == x);
        }
        if s.drop_last().contains(x) {
            let i = choose|i: int| 0 <= i < s.drop_last().len() && s.drop_last()[i] == x;
            assert(s[i] == x);
        }
        if prev.push(s.last()).contains(x) && x != s.last() {
            let i = choose|i: int| 0 <= i < prev.len() + 1 && prev.push(s.last())[i] == x;
            assert(prev[i] == x);
        }
        if prev.contains(x) {
            let i = choose|i: int| 0 <= i < prev.len() && prev[i] == x;
            assert(prev.push(s.last())[i] == x);
        }
        assert(s[s.len() - 1] == s.last());
        assert(prev.push(s.last())[prev.len() as int] == s.last());
    }
}

/// `e` is the entry of a path of the walk `all` that is not left out
/// itself and lies below no directory of the walk that is left out.
pub open spec fn from_admitted(
    policy: IgnorePolicy,
    target: Seq<char>,
    all: Seq<Candidate>,
    e: (Seq<char>, bool),
) -> bool {
    exists|c: Candidate|
        #[trigger] all.contains(c) && candidate_entry(c) == e && !rejected(policy, target, c)
            && !pruned(policy, target, all, c)
}

/// Ignore correctness: every archive entry comes from a path of the walk
/// that is not left out itself (neither the target nor the repository's
/// directory nor within them, and not excluded by the ignore policy) and
/// that lies below no directory of the walk that is left out.
pub proof fn archived_entries_are_admitted(policy: IgnorePolicy, target: Seq<char>, all: Seq<Candidate>)
    ensures
        forall|k: int|
            0 <= k < selection(policy, target, all).len() ==> from_admitted(
                policy,
                target,
                all,
                #[trigger] selection(policy, target, all)[k],
            ),
{
    let sel = selected(policy, target, all, all);
    assert forall|k: int| 0 <= k < selection(policy, target, all).len() implies from_admitted(
        policy,
        target,
        all,
        #[trigger] selection(policy, target, all)[k],
    ) by {
        let c = sel[k];
        assert(sel.contains(c));
        lemma_selected_contains(policy, target, all, all, c);
        assert(candidate_entry(c) == selection(policy, target, all)[k]);
    }
}

/// Under an ignore-list file, no archive entry's path starts with a listed
/// prefix, and none is or lies in the target or the repository's directory.
pub proof fn listed_prefixes_never_archived(ps: Vec<String>, target: Seq<char>, all: Seq<Candidate>)
    ensures
        forall|k: int|
            #![trigger selection(IgnorePolicy::Prefixes(ps), target, all)[k]]
            0 <= k < selection(IgnorePolicy::Prefixes(ps), target, all).len() ==> {
                let p = selection(IgnorePolicy::Prefixes(ps), target, all)[k].0;
                &&& forall|j: int| 0 <= j < ps@.len() ==> !is_prefix(#[trigger] ps@[j]@, p)
                &&& !is_within(p, target)
                &&& !is_within(p, VCS_DIR@)
            },
{
    let policy = IgnorePolicy::Prefixes(ps);
    archived_entries_are_admitted(policy, target, all);
    assert forall|k: int|
        #![trigger selection(policy, target, all)[k]]
        0 <= k < selection(policy, target, all).len() implies {
            let p = selection(policy, target, all)[k].0;
            &&& forall|j: int| 0 <= j < ps@.len() ==> !is_prefix(#[trigger] ps@[j]@, p)
            &&& !is_within(p, target)
            &&& !is_within(p, VCS_DIR@)
        } by {
        let e = selection(policy, target, all)[k];
        assert(from_admitted(policy, target, all, e));
        let c = choose|c: Candidate|
            #[trigger] all.contains(c) && candidate_entry(c) == e && !rejected(policy, target, c)
                && !pruned(policy, target, all, c);
        assert(c.path@ == e.0);
        assert(!excluded_by(policy, c.path@, c.vcs_ignored));
        assert forall|j: int| 0 <= j < ps@.len() implies !is_prefix(#[trigger] ps@[j]@, e.0) by {
            if is_prefix(ps@[j]@, e.0) {
                assert(is_prefix(ps@[j]@, c.path@));
                assert(policy->Prefixes_0 == ps);
                assert(exists|k: int| 0 <= k < ps@.len() && is_prefix(#[trigger] ps@[k]@, c.path@));
                assert(excluded_by(policy, c.path@, c.vcs_ignored));
            }
        }
        assert(!is_within(e.0, target));
        assert(!is_within(e.0, VCS_DIR@));
    }
}

/// Completeness: every path of the walk that is not left out itself and lies
/// below no directory of the walk that is left out becomes an archive entry.
pub proof fn admitted_paths_are_archived(
    policy: IgnorePolicy,
    target: Seq<char>,
    all: Seq<Candidate>,
    c: Candidate,
)
    requires
        all.contains(c),
        !rejected(policy, target, c),
        !pruned(policy, target, all, c),
    ensures
        selection(policy, target, all).contains(candidate_entry(c)),
{
    let sel = selected(policy, target, all, all);
    lemma_selected_contains(policy, target, all, all, c);
    let k = choose|k: int| 0 <= k < sel.len() && sel[k] == c;
    assert(selection(policy, target, all)[k] == candidate_entry(c));
}

proof fn lemma_prefix_trans(p: Seq<char>, q: Seq<char>, r: Seq<char>)
    requires
        is_prefix(p, q),
        is_prefix(q, r),
    ensures
        is_prefix(p, r),
{
    assert(r.subrange(0, p.len() as int) =~= r.subrange(0, q.len() as int).subrange(0, p.len() as int));
}

/// What lies below a path within `t` is within `t` too.
proof fn lemma_within_below(c: Seq<char>, d: Seq<char>, t: Seq<char>)
    requires
        is_below(c, d),
        is_within(d, t),
    ensures
        is_within(c, t),
{
    if d != t {
        assert(is_prefix(d, d.push('/'))) by {
            assert(d.push('/').subrange(0, d.len() as int) =~= d);
        }
        lemma_prefix_trans(d, d.push('/'), c);
        lemma_prefix_trans(t.push('/'), d, c);
    }
}

/// Neither the target nor the repository's directory, nor within them.
pub open spec fn outside_output(path: Seq<char>, target: Seq<char>) -> bool {
    !is_within(path, target) && !is_within(path, VCS_DIR@)
}

/// Idempotence: two walks that yield the same candidates outside the target
/// and the repository's directory, in whatever order, give the same set of
/// archive entries. A second build over an unchanged tree differs from the
/// first only there.
pub proof fn selection_ignores_walk_order(
    policy: IgnorePolicy,
    target: Seq<char>,
    a: Seq<Candidate>,
    b: Seq<Candidate>,
)
    requires
        forall|c: Candidate| outside_output(c.path@, target) ==> (#[trigger] a.contains(c) <==> b.contains(c)),
    ensures
        selection(policy, target, a).to_set() == selection(policy, target, b).to_set(),
{
    assert forall|c: Candidate| admitted(policy, target, a, c) <==> admitted(policy, target, b, c) by {
        if !rejected(policy, target, c) {
            if pruned(policy, target, a, c) {
                let d = choose|d: Candidate| #[trigger] a.contains(d) && d.is_dir && rejected(policy, target, d) && is_below(c.path@, d.path@);
                if is_within(d.path@, target) {
                    lemma_within_below(c.path@, d.path@, target);
                }
                if is_within(d.path@, VCS_DIR@) {
                    lemma_within_below(c.path@, d.path@, VCS_DIR@);
                }
                assert(b.contains(d));
            }
            if pruned(policy, target, b, c) {
                let d = choose|d: Candidate| #[trigger] b.contains(d) && d.is_dir && rejected(policy, target, d) && is_below(c.path@, d.path@);
                if is_within(d.path@, target) {
                    lemma_within_below(c.path@, d.path@, target);
                }
                if is_within(d.path@, VCS_DIR@) {
                    lemma_within_below(c.path@, d.path@, VCS_DIR@);
                }
                assert(a.contains(d));
            }
        }
    }
    assert forall|x: (Seq<char>, bool)| selection(policy, target, a).contains(x) implies selection(policy, target, b).contains(x) by {
        lemma_selection_member(policy, target, a, b, x);
    }
    assert forall|x: (Seq<char>, bool)| selection(policy, target, b).contains(x) implies selection(policy, target, a).contains(x) by {
        lemma_selection_member(policy, target, b, a, x);
    }
    assert(selection(policy, target, a).to_set() =~= selection(policy, target, b).to_set());
}

proof fn lemma_selection_member(
    policy: IgnorePolicy,
    target: Seq<char>,
    a: Seq<Candidate>,
    b: Seq<Candidate>,
    x: (Seq<char>, bool),
)
    requires
        forall|c: Candidate| outside_output(c.path@, target) ==> (#[trigger] a.contains(c) <==> b.contains(c)),
        forall|c: Candidate| admitted(policy, target, a, c) <==> admitted(policy, target, b, c),
        selection(policy, target, a).contains(x),
    ensures
        selection(policy, target, b).contains(x),
{
    let sa = selected(policy, target, a, a);
    let sb = selected(policy, target, b, b);
    let k = choose|k: int| 0 <= k < selection(policy, target, a).len() && selection(policy, target, a)[k] == x;
    let c = sa[k];
    assert(sa.contains(c));
    lemma_selected_contains(policy, target, a, a, c);
    assert(outside_output(c.path@, target));
    assert(b.contains(c));
    lemma_selected_contains(policy, target, b, b, c);
    assert(sb.contains(c));
    let j = choose|j: int| 0 <= j < sb.len() && sb[j] == c;
    assert(selection(policy, target, b)[j] == x);
}

} // verus!
