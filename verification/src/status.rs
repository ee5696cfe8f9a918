//! The repository status reader: opens a repository, reads its working
//! tree state, and classifies the current branch against its remote
//! tracking branch.
//!
//! The repository itself is reached through the trusted boundary in
//! `gitio`; every decision taken on what comes back -- the change lines,
//! the error mapping, and the ancestry classification -- is verified
//! here and in `ancestry`.

use vstd::prelude::*;
use git2::Repository as Git2Repository;
use crate::ancestry::{
    ancestry_of, classify_ancestry, opt_id_view, bytes_equal, spec_needs_pull, spec_needs_push,
    sync_flags,
};
use crate::error::{PendectorError, PendectorResult};
use crate::gitio::{
    ChangeEntry, HeadInfo, error_is_not_found, error_message, merge_base_of, open_repository,
    read_status_entries, reference_tip, repo_head_info, scan_status_options,
};

verus! {

/// Everything the reader reports about one repository.
#[derive(Debug, Clone)]
pub struct RepoStatus {
    /// The working tree or index differs from the last commit, untracked
    /// files included, ignored files excluded.
    pub has_changes: bool,
    /// The current branch; absent while the repository has no commits.
    pub current_branch: Option<String>,
    /// One line per changed file: a kind marker, then the path.
    pub changed_files: Vec<String>,
    /// The remote holds commits this repository lacks.
    pub needs_pull: bool,
    /// This repository holds commits the remote lacks.
    pub needs_push: bool,
    /// The remote tracking branch, when one exists.
    pub remote_branch: Option<String>,
}

/// The marker that prefixes a changed file's line: untracked or newly
/// added files, then modifications, deletions and renames, in that order
/// of precedence.
pub open spec fn change_marker(e: ChangeEntry) -> Seq<char> {
    if e.wt_new || e.index_new {
        "?? "@
    } else if e.wt_modified || e.index_modified {
        " M "@
    } else if e.wt_deleted || e.index_deleted {
        " D "@
    } else if e.wt_renamed || e.index_renamed {
        " R "@
    } else {
        "   "@
    }
}

/// The lines reported for a sequence of change entries: marker plus path,
/// for the entries whose path is valid text.
pub open spec fn change_lines_view(entries: Seq<ChangeEntry>) -> Seq<Seq<char>>
    decreases entries.len(),
{
    if entries.len() == 0 {
        Seq::empty()
    } else {
        let rest = change_lines_view(entries.drop_last());
        match entries.last().path {
            Some(p) => rest.push(change_marker(entries.last()) + p@),
            None => rest,
        }
    }
}

/// The marker that prefixes the line for `e`.
fn change_marker_str(e: &ChangeEntry) -> (r: &'static str)
    ensures
        r@ == change_marker(*e),
{
    if e.wt_new || e.index_new {
        "?? "
    } else if e.wt_modified || e.index_modified {
        " M "
    } else if e.wt_deleted || e.index_deleted {
        " D "
    } else if e.wt_renamed || e.index_renamed {
        " R "
    } else {
        "   "
    }
}

/// Render one line per changed file with a valid path.
fn change_lines(entries: &Vec<ChangeEntry>) -> (r: Vec<String>)
    ensures
        r@.map_values(|s: String| s@) == change_lines_view(entries@),
{
    let mut r: Vec<String> = Vec::new();
    proof {
        assert(entries@.take(0) =~= Seq::<ChangeEntry>::empty());
        assert(r@.map_values(|s: String| s@) =~= change_lines_view(entries@.take(0)));
    }
    let mut i: usize = 0;
    while i < entries.len()
        invariant
            i <= entries@.len(),
            r@.map_values(|s: String| s@) == change_lines_view(entries@.take(i as int)),
        decreases entries@.len() - i,
    {
        proof {
            assert(entries@.take(i + 1).drop_last() =~= entries@.take(i as int));
            assert(entries@.take(i + 1).last() == entries@[i as int]);
        }
        let e = &entries[i];
        match &e.path {
            Some(p) => {
                let mut line = change_marker_str(e).to_owned();
                line.append(p.as_str());
                let ghost old_r = r@;
                r.push(line);
                proof {
                    assert(r@.map_values(|s: String| s@) =~= old_r.map_values(
                        |s: String| s@,
                    ).push(change_marker(entries@[i as int]) + entries@[i as int].path->0@));
                }
            },
            None => {},
        }
        i += 1;
    }
    proof {
        assert(entries@.take(entries@.len() as int) =~= entries@);
    }
    r
}

/// The name under which the remote tracking branch of `branch` is
/// reported.
pub open spec fn remote_display_view(branch: Seq<char>) -> Seq<char> {
    "origin/"@ + branch
}

/// The synchronization state that given tips dictate. Takes the local
/// branch name, the local tip, the result of looking up the remote
/// tracking reference (`None` when the reference does not exist), and the
/// merge base of the two tips where both exist and differ.
///
/// A remote tracking branch is reported only when the local tip exists
/// and the reference was found; the pull/push flags follow the ancestry
/// classification of the two tips, and stay clear when either tip is
/// missing.
pub fn sync_state_from_tips(
    branch: &str,
    local_tip: &Option<Vec<u8>>,
    remote_lookup: &Option<Option<Vec<u8>>>,
    merge_base: &Option<Vec<u8>>,
) -> (r: (bool, bool, Option<String>))
    ensures
        match (local_tip, remote_lookup) {
            (Some(lt), Some(remote_tip)) => {
                &&& r.2 matches Some(rb) && rb@ == remote_display_view(branch@)
                &&& match remote_tip {
                    Some(rt) => {
                        let a = ancestry_of(lt@, rt@, opt_id_view(*merge_base));
                        r.0 == spec_needs_pull(a) && r.1 == spec_needs_push(a)
                    },
                    None => !r.0 && !r.1,
                }
            },
            _ => r == (false, false, Option::<String>::None),
        },
{
    match (local_tip, remote_lookup) {
        (Some(lt), Some(remote_tip)) => {
            let mut display = "origin/".to_owned();
            display.append(branch);
            match remote_tip {
                Some(rt) => {
                    let a = classify_ancestry(lt, rt, merge_base);
                    let flags = sync_flags(a);
                    (flags.0, flags.1, Some(display))
                },
                None => (false, false, Some(display)),
            }
        },
        _ => (false, false, None),
    }
}

/// The branch a resolved HEAD names, when it resolved and names one.
pub fn branch_of_head(head: &Option<HeadInfo>) -> (r: Option<String>)
    ensures
        r == match head {
            Some(h) => h.branch,
            None => None::<String>,
        },
{
    match head {
        Some(h) => match &h.branch {
            Some(b) => Some(b.clone()),
            None => None,
        },
        None => None,
    }
}

/// The error reported when opening the repository failed: the not-found
/// code means no repository lives at the path, anything else is a failed
/// open carrying the underlying message.
pub fn classify_open_failure(repo_path: &str, not_found: bool, message: String) -> (r:
    PendectorError)
    ensures
        not_found ==> (r matches PendectorError::GitRepositoryNotFound(p) && p@ == repo_path@),
        !not_found ==> (r matches PendectorError::GitOperationFailed {
            repo_path: rp,
            operation: op,
            source: src,
        } && rp@ == repo_path@ && op@ == "open repository"@ && src == message),
{
    if not_found {
        PendectorError::GitRepositoryNotFound(repo_path.to_owned())
    } else {
        PendectorError::GitOperationFailed {
            repo_path: repo_path.to_owned(),
            operation: "open repository".to_owned(),
            source: message,
        }
    }
}

/// The status report that given readings dictate: changed exactly when
/// there is at least one change entry, one kind-marked line per entry
/// with a valid path, the branch as resolved, and the synchronization
/// triple as classified.
pub fn assemble_status(
    entries: &Vec<ChangeEntry>,
    branch: Option<String>,
    sync: (bool, bool, Option<String>),
) -> (st: RepoStatus)
    ensures
        st.has_changes == (entries@.len() > 0),
        st.changed_files@.map_values(|s: String| s@) == change_lines_view(entries@),
        st.current_branch == branch,
        st.needs_pull == sync.0,
        st.needs_push == sync.1,
        st.remote_branch == sync.2,
{
    let has_changes = entries.len() > 0;
    let changed_files = change_lines(entries);
    let (needs_pull, needs_push, remote_branch) = sync;
    RepoStatus {
        has_changes,
        current_branch: branch,
        changed_files,
        needs_pull,
        needs_push,
        remote_branch,
    }
}

/// The well-formedness of a reported synchronization state: without a
/// remote tracking branch neither flag is ever set.
pub open spec fn sync_state_wf(needs_pull: bool, needs_push: bool, remote_branch: Option<String>)
    -> bool {
    remote_branch is None ==> !needs_pull && !needs_push
}

/// The reader's status type upholds the synchronization invariant.
pub open spec fn repo_status_wf(st: RepoStatus) -> bool {
    &&& sync_state_wf(st.needs_pull, st.needs_push, st.remote_branch)
    &&& st.remote_branch matches Some(rb) ==> (st.current_branch matches Some(b) && rb@
        == remote_display_view(b@))
    &&& !st.has_changes ==> st.changed_files@.len() == 0
}

/// Reads repository state and classifies branches against their remote.
pub struct GitStatus;

impl GitStatus {
    /// Compare the current branch against its `origin` tracking branch.
    /// Reports the tracking branch when HEAD names a branch with a tip
    /// and the tracking reference exists, and the pull/push flags that
    /// the ancestry of the two tips dictates. Without a tracking branch
    /// both flags stay clear.
    pub fn check_remote_sync(repo: &Git2Repository, head: &Option<HeadInfo>) -> (r: (
        bool,
        bool,
        Option<String>,
    ))
        ensures
            sync_state_wf(r.0, r.1, r.2),
            r.2 matches Some(rb) ==> (head matches Some(h) && h.branch matches Some(b) && h.tip
                is Some && rb@ == remote_display_view(b@)),
    {
        match head {
            Some(h) => {
                match (&h.branch, &h.tip) {
                    (Some(branch), Some(local)) => {
                        let mut refname = "refs/remotes/origin/".to_owned();
                        refname.append(branch.as_str());
                        let remote_lookup = reference_tip(repo, refname.as_str());
                        let base = match &remote_lookup {
                            Some(Some(rt)) => {
                                if !bytes_equal(local, rt) {
                                    merge_base_of(repo, local, rt)
                                } else {
                                    None
                                }
                            },
                            _ => None,
                        };
                        let local_opt = Some(local.clone());
                        let r = sync_state_from_tips(
                            branch.as_str(),
                            &local_opt,
                            &remote_lookup,
                            &base,
                        );
                        r
                    },
                    _ => (false, false, None),
                }
            },
            None => (false, false, None),
        }
    }

    /// Read the full status of the repository at `repo_path`: the current
    /// branch, the changed files, and the remote synchronization state.
    /// Fails with `GitRepositoryNotFound` when no repository lives there,
    /// and with `GitOperationFailed` when one does but cannot be read.
    pub fn get_repository_status(repo_path: &str) -> (r: PendectorResult<RepoStatus>)
        ensures
            r matches Ok(st) ==> repo_status_wf(st),
            r matches Err(e) ==> (e matches PendectorError::GitRepositoryNotFound(p) && p@
                == repo_path@) || (e matches PendectorError::GitOperationFailed {
                repo_path: rp,
                ..
            } && rp@ == repo_path@),
    {
        let repo = match open_repository(repo_path) {
            Ok(repo) => repo,
            Err(e) => {
                let not_found = error_is_not_found(&e);
                return Err(classify_open_failure(repo_path, not_found, error_message(&e)));
            },
        };
        let head = repo_head_info(&repo);
        let current_branch = branch_of_head(&head);
        let mut opts = scan_status_options();
        let entries = match read_status_entries(&repo, &mut opts) {
            Ok(v) => v,
            Err(e) => {
                return Err(
                    PendectorError::from_git2_error(
                        repo_path.to_owned(),
                        "get status".to_owned(),
                        e,
                    ),
                );
            },
        };
        let sync = Self::check_remote_sync(&repo, &head);
        let st = assemble_status(&entries, current_branch, sync);
        proof {
            assert(st.changed_files@.map_values(|s: String| s@).len() == st.changed_files@.len());
        }
        Ok(st)
    }
}

} // verus!
