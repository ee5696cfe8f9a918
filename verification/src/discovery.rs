//! Discovery of repository roots: given the entries of a directory walk
//! below a scan root, select the directories that directly contain a
//! `.git` metadata directory within the depth limit.
//!
//! Walking the file system is the surrounding program's concern; it hands
//! in one entry per visited directory, as path segments below the scan
//! root. The selection itself -- the depth bound, the `.git` test and the
//! rule that a `.git` directory is never itself a repository root -- is
//! verified here.

use vstd::prelude::*;
use crate::strutil::eq_str;

verus! {

/// One directory met while walking the scan root: its path segments below
/// the root (empty for the root itself) and whether it is a directory.
/// Symbolic links are not followed, so a link never appears as a
/// directory entry.
#[derive(Debug, Clone)]
pub struct WalkEntry {
    pub segments: Vec<String>,
    pub is_dir: bool,
}

/// The mathematical value of a segment list.
pub open spec fn seg_views(segs: Seq<String>) -> Seq<Seq<char>> {
    segs.map_values(|s: String| s@)
}

/// No segment names the metadata directory.
pub open spec fn avoids_git_dir(segs: Seq<Seq<char>>) -> bool {
    forall|j: int| 0 <= j < segs.len() ==> segs[j] != ".git"@
}

/// An entry marks a repository root when it is a `.git` directory whose
/// parent -- the root itself -- lies at most `max_depth` levels below the
/// scan root (with limit zero only the scan root itself is checked), and
/// no enclosing directory is itself named `.git` (the walk does not
/// descend into metadata directories).
pub open spec fn is_repo_candidate(e: WalkEntry, max_depth: int) -> bool {
    &&& e.is_dir
    &&& e.segments@.len() >= 1
    &&& e.segments@.len() - 1 <= max_depth
    &&& seg_views(e.segments@).last() == ".git"@
    &&& avoids_git_dir(seg_views(e.segments@).drop_last())
}

/// The scan root joined with segments, `/`-separated.
pub open spec fn joined_path(base: Seq<char>, segs: Seq<Seq<char>>) -> Seq<char>
    decreases segs.len(),
{
    if segs.len() == 0 {
        base
    } else {
        joined_path(base, segs.drop_last()) + seq!['/'] + segs.last()
    }
}

/// The root that a candidate entry marks: its parent directory.
pub open spec fn candidate_root(base: Seq<char>, e: WalkEntry) -> Seq<char> {
    joined_path(base, seg_views(e.segments@).drop_last())
}

/// The repository roots that a walk discovers, in walk order.
pub open spec fn repo_roots_view(base: Seq<char>, entries: Seq<WalkEntry>, max_depth: int) -> Seq<
    Seq<char>,
>
    decreases entries.len(),
{
    if entries.len() == 0 {
        Seq::empty()
    } else {
        let rest = repo_roots_view(base, entries.drop_last(), max_depth);
        if is_repo_candidate(entries.last(), max_depth) {
            rest.push(candidate_root(base, entries.last()))
        } else {
            rest
        }
    }
}

/// Whether `e` marks a repository root under the given depth limit.
fn entry_is_candidate(e: &WalkEntry, max_depth: usize) -> (r: bool)
    ensures
        r == is_repo_candidate(*e, max_depth as int),
{
    if !e.is_dir {
        return false;
    }
    let n = e.segments.len();
    if n < 1 || n - 1 > max_depth {
        return false;
    }
    if !eq_str(e.segments[n - 1].as_str(), ".git") {
        return false;
    }
    let mut j: usize = 0;
    while j < n - 1
        invariant
            j <= n - 1,
            n == e.segments@.len(),
            n >= 1,
            forall|t: int| 0 <= t < j ==> e.segments@[t]@ != ".git"@,
        decreases n - 1 - j,
    {
        if eq_str(e.segments[j].as_str(), ".git") {
            proof {
                assert(seg_views(e.segments@).drop_last()[j as int] == e.segments@[j as int]@);
            }
            return false;
        }
        j += 1;
    }
    proof {
        assert(seg_views(e.segments@).last() == e.segments@[n - 1]@);
        assert forall|t: int|
            0 <= t < seg_views(e.segments@).drop_last().len() implies seg_views(
            e.segments@,
        ).drop_last()[t] != ".git"@ by {
            assert(seg_views(e.segments@).drop_last()[t] == e.segments@[t]@);
        }
    }
    true
}

/// `base` joined with the first `count` segments, `/`-separated.
fn join_below(base: &str, segs: &Vec<String>, count: usize) -> (r: String)
    requires
        count <= segs@.len(),
    ensures
        r@ == joined_path(base@, seg_views(segs@).take(count as int)),
{
    let mut s = base.to_owned();
    proof {
        assert(seg_views(segs@).take(0) =~= Seq::<Seq<char>>::empty());
    }
    let mut i: usize = 0;
    while i < count
        invariant
            i <= count <= segs@.len(),
            s@ == joined_path(base@, seg_views(segs@).take(i as int)),
        decreases count - i,
    {
        s.append("/");
        s.append(segs[i].as_str());
        proof {
            reveal_strlit("/");
            let upto = seg_views(segs@).take(i + 1);
            assert(upto.drop_last() =~= seg_views(segs@).take(i as int));
            assert(upto.last() == segs@[i as int]@);
            assert("/"@ =~= seq!['/']);
            assert(s@ =~= joined_path(base@, upto));
        }
        i += 1;
    }
    s
}

/// Select the repository roots among the walked entries: the parents of
/// the `.git` directories that lie within `max_depth` levels below the
/// scan root, in walk order.
pub fn discover_repo_roots(base: &str, entries: &Vec<WalkEntry>, max_depth: usize) -> (r: Vec<
    String,
>)
    ensures
        r@.map_values(|s: String| s@) == repo_roots_view(base@, entries@, max_depth as int),
{
    let mut r: Vec<String> = Vec::new();
    proof {
        assert(entries@.take(0) =~= Seq::<WalkEntry>::empty());
        assert(r@.map_values(|s: String| s@) =~= repo_roots_view(
            base@,
            entries@.take(0),
            max_depth as int,
        ));
    }
    let mut i: usize = 0;
    while i < entries.len()
        invariant
            i <= entries@.len(),
            r@.map_values(|s: String| s@) == repo_roots_view(
                base@,
                entries@.take(i as int),
                max_depth as int,
            ),
        decreases entries@.len() - i,
    {
        let e = &entries[i];
        proof {
            assert(entries@.take(i + 1).drop_last() =~= entries@.take(i as int));
            assert(entries@.take(i + 1).last() == entries@[i as int]);
        }
        if entry_is_candidate(e, max_depth) {
            let root = join_below(base, &e.segments, e.segments.len() - 1);
            proof {
                assert(seg_views(e.segments@).take(e.segments@.len() - 1) =~= seg_views(
                    e.segments@,
                ).drop_last());
            }
            let ghost old_r = r@;
            r.push(root);
            proof {
                assert(r@.map_values(|s: String| s@) =~= old_r.map_values(
                    |s: String| s@,
                ).push(candidate_root(base@, entries@[i as int])));
            }
        }
        i += 1;
    }
    proof {
        assert(entries@.take(entries@.len() as int) =~= entries@);
    }
    r
}

/// With a depth limit of zero only the scan root itself is checked: when
/// every repository in the tree lies below it (every `.git` entry is at
/// least two levels down), nothing is discovered.
pub proof fn lemma_depth_zero_discovers_nothing(base: Seq<char>, entries: Seq<WalkEntry>)
    requires
        forall|j: int|
            0 <= j < entries.len() && #[trigger] entries[j].is_dir && seg_views(
                entries[j].segments@,
            ).len() >= 1 && seg_views(entries[j].segments@).last() == ".git"@ ==> seg_views(
                entries[j].segments@,
            ).len() >= 2,
    ensures
        repo_roots_view(base, entries, 0).len() == 0,
    decreases entries.len(),
{
    if entries.len() > 0 {
        lemma_depth_zero_discovers_nothing(base, entries.drop_last());
        assert(entries[entries.len() - 1] == entries.last());
        assert(!is_repo_candidate(entries.last(), 0));
    }
}

/// Every entry that marks a repository root within the depth limit is
/// reported: in particular, a repository whose metadata directory lies
/// two levels below the scan root is discovered with a depth limit of
/// two.
pub proof fn lemma_candidate_is_reported(
    base: Seq<char>,
    entries: Seq<WalkEntry>,
    max_depth: int,
    i: int,
)
    requires
        0 <= i < entries.len(),
        is_repo_candidate(entries[i], max_depth),
    ensures
        repo_roots_view(base, entries, max_depth).contains(candidate_root(base, entries[i])),
    decreases entries.len(),
{
    let rest = repo_roots_view(base, entries.drop_last(), max_depth);
    if i == entries.len() - 1 {
        let full = rest.push(candidate_root(base, entries.last()));
        assert(full[full.len() - 1] == candidate_root(base, entries[i]));
    } else {
        lemma_candidate_is_reported(base, entries.drop_last(), max_depth, i);
        let k = choose|k: int|
            0 <= k < rest.len() && rest[k] == candidate_root(base, entries.drop_last()[i]);
        assert(repo_roots_view(base, entries, max_depth)[k] == rest[k]);
    }
}

/// A path made of the scan root and segments that never name `.git`.
pub open spec fn is_git_free_root(base: Seq<char>, p: Seq<char>) -> bool {
    exists|segs: Seq<Seq<char>>|
        p == #[trigger] joined_path(base, segs) && avoids_git_dir(segs)
}

/// A `.git` directory is never itself reported as a repository root, nor
/// is anything inside one: every reported root is the scan root followed
/// by segments of which none is `.git`.
pub proof fn lemma_git_dir_never_reported(
    base: Seq<char>,
    entries: Seq<WalkEntry>,
    max_depth: int,
)
    ensures
        forall|k: int|
            0 <= k < repo_roots_view(base, entries, max_depth).len() ==> is_git_free_root(
                base,
                repo_roots_view(base, entries, max_depth)[k],
            ),
    decreases entries.len(),
{
    if entries.len() > 0 {
        lemma_git_dir_never_reported(base, entries.drop_last(), max_depth);
        let full = repo_roots_view(base, entries, max_depth);
        let rest = repo_roots_view(base, entries.drop_last(), max_depth);
        assert forall|k: int| 0 <= k < full.len() implies is_git_free_root(base, full[k]) by {
            if k < rest.len() {
                assert(is_git_free_root(base, rest[k]));
            } else {
                let e = entries.last();
                let segs = seg_views(e.segments@).drop_last();
                assert(full[k] == joined_path(base, segs));
            }
        }
    }
}

} // verus!
