//! The report produced for one discovered repository: its location and
//! display name, the working-tree state, and the synchronization state
//! against the remote tracking branch.

use vstd::prelude::*;
use crate::status::RepoStatus;
use crate::strutil::{last_segment, last_segment_view};

verus! {

/// One discovered repository and everything reported about it.
#[derive(Debug, Clone)]
pub struct Repository {
    /// The path of the repository root, as given by discovery.
    pub path: String,
    /// Display name: the final path segment, or the path itself when it
    /// has none.
    pub name: String,
    /// Whether the working tree or index differs from the last commit,
    /// untracked files included.
    pub has_changes: bool,
    /// The current branch; absent while the repository has no commits.
    pub current_branch: Option<String>,
    /// One line per changed file, a kind marker followed by the path.
    pub changed_files: Vec<String>,
    /// The remote holds commits this repository lacks.
    pub needs_pull: bool,
    /// This repository holds commits the remote lacks.
    pub needs_push: bool,
    /// The remote tracking branch, when one exists.
    pub remote_branch: Option<String>,
}

/// The display name `Repository::new` derives from a path.
pub open spec fn repo_name_view(path: Seq<char>) -> Seq<char> {
    match last_segment_view(path) {
        Some(seg) => seg,
        None => path,
    }
}

impl Repository {
    /// A fresh report for the repository at `path`, with a clean working
    /// tree and no remote information yet. The display name is the final
    /// path segment; a path without one (such as `.` or `/`) names
    /// itself. Resolving such a path to the name of the directory it
    /// denotes means asking the working directory, which is the
    /// surrounding program's step: it canonicalizes scan roots before
    /// constructing reports.
    pub fn new(path: String) -> (r: Self)
        ensures
            r.path == path,
            r.name@ == repo_name_view(path@),
            !r.has_changes,
            r.current_branch is None,
            r.changed_files@.len() == 0,
            !r.needs_pull,
            !r.needs_push,
            r.remote_branch is None,
    {
        let name: String = match last_segment(path.as_str()) {
            Some(seg) => seg,
            None => path.clone(),
        };
        Repository {
            path,
            name,
            has_changes: false,
            current_branch: None,
            changed_files: Vec::new(),
            needs_pull: false,
            needs_push: false,
            remote_branch: None,
        }
    }

    /// The same report with the working-tree information filled in.
    pub fn with_git_info(self, has_changes: bool, branch: Option<String>, files: Vec<String>) -> (r:
        Self)
        ensures
            r.path == self.path,
            r.name == self.name,
            r.has_changes == has_changes,
            r.current_branch == branch,
            r.changed_files == files,
            r.needs_pull == self.needs_pull,
            r.needs_push == self.needs_push,
            r.remote_branch == self.remote_branch,
    {
        Repository { has_changes, current_branch: branch, changed_files: files, ..self }
    }

    /// The same report with the remote synchronization state filled in.
    pub fn with_remote_info(
        self,
        needs_pull: bool,
        needs_push: bool,
        remote_branch: Option<String>,
    ) -> (r: Self)
        ensures
            r.path == self.path,
            r.name == self.name,
            r.has_changes == self.has_changes,
            r.current_branch == self.current_branch,
            r.changed_files == self.changed_files,
            r.needs_pull == needs_pull,
            r.needs_push == needs_push,
            r.remote_branch == remote_branch,
    {
        Repository { needs_pull, needs_push, remote_branch, ..self }
    }

    /// The report for one scanned repository root whose status was read.
    /// (A path whose status cannot be read is omitted from the scan, with
    /// a warning, by the caller.)
    pub fn from_scan(path: String, status: RepoStatus) -> (r: Self)
        ensures
            r.path == path,
            r.name@ == repo_name_view(path@),
            r.has_changes == status.has_changes,
            r.current_branch == status.current_branch,
            r.changed_files == status.changed_files,
            r.needs_pull == status.needs_pull,
            r.needs_push == status.needs_push,
            r.remote_branch == status.remote_branch,
    {
        Repository::new(path).with_git_info(
            status.has_changes,
            status.current_branch,
            status.changed_files,
        ).with_remote_info(status.needs_pull, status.needs_push, status.remote_branch)
    }
}

} // verus!
