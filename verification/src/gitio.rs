//! The library's trusted boundary to the `git2` crate: type declarations
//! and thin wrappers around the repository operations the status reader
//! needs. Each wrapper converts the outside values to plain data; what the
//! library concludes from that data is verified elsewhere.

use vstd::prelude::*;
use git2::Repository as Git2Repository;

verus! {

#[verifier::external_type_specification]
#[verifier::external_body]
pub struct ExGitRepository(Git2Repository);

#[verifier::external_type_specification]
#[verifier::external_body]
pub struct ExGitError(git2::Error);

/// What HEAD resolves to: the branch it names, when the name is valid
/// text, and the raw id bytes of the commit it points at, when it points
/// at one.
#[derive(Debug, Clone)]
pub struct HeadInfo {
    pub branch: Option<String>,
    pub tip: Option<Vec<u8>>,
}

/// One changed file as the repository reports it: the status bits that
/// are set, and its path when the path is valid text.
#[derive(Debug, Clone)]
pub struct ChangeEntry {
    pub wt_new: bool,
    pub index_new: bool,
    pub wt_modified: bool,
    pub index_modified: bool,
    pub wt_deleted: bool,
    pub index_deleted: bool,
    pub wt_renamed: bool,
    pub index_renamed: bool,
    pub path: Option<String>,
}

/// Relies on Git2Repository::open: opens an already-existing repository
/// (normal or bare) at `path`.
#[verifier::external_body]
pub(crate) fn open_repository(path: &str) -> (r: Result<Git2Repository, git2::Error>) {
    Git2Repository::open(path)
}

/// Relies on git2::Error::code: whether the error carries the not-found
/// code.
#[verifier::external_body]
pub(crate) fn error_is_not_found(e: &git2::Error) -> (r: bool) {
    matches!(e.code(), git2::ErrorCode::NotFound)
}

/// Relies on git2::Error::message: the failure text of the error.
#[verifier::external_body]
pub(crate) fn error_message(e: &git2::Error) -> (r: String) {
    e.message().to_string()
}

/// Relies on Git2Repository::head, git2::Reference::shorthand and
/// git2::Reference::target: the branch HEAD names and the commit id it
/// points at; `None` when HEAD cannot be resolved, as in a repository
/// without commits.
#[verifier::external_body]
pub(crate) fn repo_head_info(repo: &Git2Repository) -> (r: Option<HeadInfo>) {
    match repo.head() {
        Ok(h) => Some(
            HeadInfo {
                branch: h.shorthand().ok().map(|s| s.to_string()),
                tip: h.target().map(|o| o.as_bytes().to_vec()),
            },
        ),
        Err(_) => None,
    }
}

/// Relies on Git2Repository::find_reference and git2::Reference::target:
/// `None` when the lookup fails (above all, when no reference of that
/// full name exists); otherwise the raw id bytes of the commit it points
/// at, when it is a direct reference.
#[verifier::external_body]
pub(crate) fn reference_tip(repo: &Git2Repository, refname: &str) -> (r: Option<
    Option<Vec<u8>>,
>) {
    match repo.find_reference(refname) {
        Ok(rf) => Some(rf.target().map(|o| o.as_bytes().to_vec())),
        Err(_) => None,
    }
}

/// Relies on Git2Repository::merge_base and git2::Oid::from_bytes: the
/// raw id bytes of the merge base of the two commits; `None` when the two
/// have no common ancestor or the given bytes are not valid raw ids.
#[verifier::external_body]
pub(crate) fn merge_base_of(repo: &Git2Repository, a: &Vec<u8>, b: &Vec<u8>) -> (r: Option<
    Vec<u8>,
>) {
    let (oa, ob) = match (git2::Oid::from_bytes(a), git2::Oid::from_bytes(b)) {
        (Ok(x), Ok(y)) => (x, y),
        _ => return None,
    };
    repo.merge_base(oa, ob).ok().map(|m| m.as_bytes().to_vec())
}

#[verifier::external_type_specification]
#[verifier::external_body]
pub struct ExGitStatusOptions(git2::StatusOptions);

/// Relies on git2::StatusOptions: the options the status reader uses --
/// untracked files included, ignored files and rename detection excluded.
#[verifier::external_body]
pub(crate) fn scan_status_options() -> (r: git2::StatusOptions) {
    let mut opts = git2::StatusOptions::new();
    opts.include_untracked(true).include_ignored(false);
    opts.renames_head_to_index(false).renames_index_to_workdir(false);
    opts
}

/// Relies on Git2Repository::statuses and the git2::Status bit accessors:
/// one entry per changed file, in the order the repository reports them.
#[verifier::external_body]
pub(crate) fn read_status_entries(repo: &Git2Repository, opts: &mut git2::StatusOptions) -> (r:
    Result<Vec<ChangeEntry>, git2::Error>) {
    let statuses = repo.statuses(Some(opts))?;
    Ok(statuses.iter().map(|e| {
        let s = e.status();
        ChangeEntry {
            wt_new: s.is_wt_new(), index_new: s.is_index_new(),
            wt_modified: s.is_wt_modified(), index_modified: s.is_index_modified(),
            wt_deleted: s.is_wt_deleted(), index_deleted: s.is_index_deleted(),
            wt_renamed: s.is_wt_renamed(), index_renamed: s.is_index_renamed(),
            path: e.path().ok().map(|p| p.to_string()),
        }
    }).collect())
}

} // verus!
