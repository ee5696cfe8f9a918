//! Classification of the relationship between a local branch tip and its
//! remote counterpart, based on the merge base (lowest common ancestor) of
//! the two commits.

use vstd::prelude::*;

verus! {

/// How a local branch tip relates to the remote tracking tip.
#[derive(Clone, Copy, Debug, PartialEq, Eq, Structural)]
pub enum Ancestry {
    /// Local and remote point at the same commit.
    Equal,
    /// Local has commits the remote lacks: a push is needed.
    Ahead,
    /// The remote has commits local lacks: a pull is needed.
    Behind,
    /// The histories have forked: both a pull and a push are needed.
    Diverged,
}

/// The classification rule itself, over commit identifiers (raw id bytes)
/// and the merge base, when one exists. Two commits with no common
/// ancestor have no merge base and count as diverged.
pub open spec fn ancestry_of(local: Seq<u8>, remote: Seq<u8>, base: Option<Seq<u8>>) -> Ancestry {
    if local == remote {
        Ancestry::Equal
    } else {
        match base {
            Some(b) => {
                if b == local {
                    Ancestry::Behind
                } else if b == remote {
                    Ancestry::Ahead
                } else {
                    Ancestry::Diverged
                }
            },
            None => Ancestry::Diverged,
        }
    }
}

/// A pull is needed exactly when the remote holds commits local lacks.
pub open spec fn spec_needs_pull(a: Ancestry) -> bool {
    a is Behind || a is Diverged
}

/// A push is needed exactly when local holds commits the remote lacks.
pub open spec fn spec_needs_push(a: Ancestry) -> bool {
    a is Ahead || a is Diverged
}

/// The mathematical value of an optional commit identifier.
pub open spec fn opt_id_view(o: Option<Vec<u8>>) -> Option<Seq<u8>> {
    match o {
        Some(v) => Some(v@),
        None => None,
    }
}

/// Compare two commit identifiers byte for byte.
pub fn bytes_equal(a: &Vec<u8>, b: &Vec<u8>) -> (r: bool)
    ensures
        r == (a@ == b@),
{
    if a.len() != b.len() {
        return false;
    }
    let mut i: usize = 0;
    while i < a.len()
        invariant
            i <= a.len(),
            a.len() == b.len(),
            forall|j: int| 0 <= j < i ==> a@[j] == b@[j],
        decreases a.len() - i,
    {
        if a[i] != b[i] {
            return false;
        }
        i += 1;
    }
    proof {
        assert(a@ =~= b@);
    }
    true
}

/// Classify the local tip against the remote tip, given the merge base
/// that the repository reported (`None` when no common ancestor exists).
pub fn classify_ancestry(local: &Vec<u8>, remote: &Vec<u8>, base: &Option<Vec<u8>>) -> (r:
    Ancestry)
    ensures
        r == ancestry_of(local@, remote@, opt_id_view(*base)),
{
    if bytes_equal(local, remote) {
        Ancestry::Equal
    } else {
        match base {
            Some(b) => {
                if bytes_equal(b, local) {
                    Ancestry::Behind
                } else if bytes_equal(b, remote) {
                    Ancestry::Ahead
                } else {
                    Ancestry::Diverged
                }
            },
            None => Ancestry::Diverged,
        }
    }
}

/// The pull/push flags that a classification dictates.
pub fn sync_flags(a: Ancestry) -> (r: (bool, bool))
    ensures
        r.0 == spec_needs_pull(a),
        r.1 == spec_needs_push(a),
{
    match a {
        Ancestry::Equal => (false, false),
        Ancestry::Ahead => (false, true),
        Ancestry::Behind => (true, false),
        Ancestry::Diverged => (true, true),
    }
}

/// Identical local and remote tips classify as equal, and neither a pull
/// nor a push is signalled, whatever the merge base.
pub proof fn lemma_equal_tips_in_sync(local: Seq<u8>, remote: Seq<u8>, base: Option<Seq<u8>>)
    requires
        local == remote,
    ensures
        ancestry_of(local, remote, base) is Equal,
        !spec_needs_pull(ancestry_of(local, remote, base)),
        !spec_needs_push(ancestry_of(local, remote, base)),
{
}

/// When the remote tip is a strict descendant of the local tip (the merge
/// base is the local tip itself), the branch is behind and only a pull is
/// signalled.
pub proof fn lemma_descendant_remote_needs_pull(local: Seq<u8>, remote: Seq<u8>)
    requires
        local != remote,
    ensures
        ancestry_of(local, remote, Some(local)) is Behind,
        spec_needs_pull(ancestry_of(local, remote, Some(local))),
        !spec_needs_push(ancestry_of(local, remote, Some(local))),
{
}

/// Symmetrically, when the local tip is a strict descendant of the remote
/// tip (the merge base is the remote tip itself), the branch is ahead and
/// only a push is signalled.
pub proof fn lemma_descendant_local_needs_push(local: Seq<u8>, remote: Seq<u8>)
    requires
        local != remote,
    ensures
        ancestry_of(local, remote, Some(remote)) is Ahead,
        !spec_needs_pull(ancestry_of(local, remote, Some(remote))),
        spec_needs_push(ancestry_of(local, remote, Some(remote))),
{
}

/// When neither tip is an ancestor of the other -- the merge base is a
/// third commit, or there is no common ancestor at all -- the branch has
/// diverged and both a pull and a push are signalled.
pub proof fn lemma_forked_tips_need_both(local: Seq<u8>, remote: Seq<u8>, base: Option<Seq<u8>>)
    requires
        local != remote,
        base matches Some(b) ==> b != local && b != remote,
    ensures
        ancestry_of(local, remote, base) is Diverged,
        spec_needs_pull(ancestry_of(local, remote, base)),
        spec_needs_push(ancestry_of(local, remote, base)),
{
}

} // verus!
