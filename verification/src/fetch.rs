//! The decisions of the fetch executor and the parallel fetch
//! coordinator: how a batch is planned, how completion is tracked for the
//! progress indicator, and how the outcome of one fetch is classified.
//!
//! Running `git fetch` -- a subprocess under a wall-clock limit -- and
//! fanning the runs out across workers is the surrounding program's
//! concern; it feeds every outcome back through the functions here.

use vstd::prelude::*;
use crate::error::{PendectorError, fetch_repo_name_view, is_fetch_error_classification};

verus! {

/// The plan for a batch of fetches.
#[derive(Debug, Clone)]
pub struct FetchPlan {
    /// How many repositories will be attempted.
    pub total: usize,
    /// Whether a progress indicator is started.
    pub show_progress: bool,
}

/// Plan a batch: every given repository is attempted, and a progress
/// indicator is started only when one was requested and the batch is not
/// empty. An empty batch starts no indicator and attempts nothing.
pub fn plan_parallel_fetch(n_repos: usize, show_progress: bool) -> (r: FetchPlan)
    ensures
        r.total == n_repos,
        r.show_progress == (show_progress && n_repos > 0),
{
    FetchPlan { total: n_repos, show_progress: show_progress && n_repos > 0 }
}

/// The completed-count that the progress indicator shows. Each finished
/// fetch, successful or not, advances it by one; it reaches the batch
/// size exactly when every repository has been attempted.
#[derive(Debug, Clone)]
pub struct FetchProgress {
    pub total: usize,
    pub completed: usize,
}

impl FetchProgress {
    /// The count never runs past the batch size.
    pub open spec fn wf(&self) -> bool {
        self.completed <= self.total
    }

    /// A fresh counter for a batch of `total` repositories.
    pub fn new(total: usize) -> (r: Self)
        ensures
            r.total == total,
            r.completed == 0,
            r.wf(),
    {
        FetchProgress { total, completed: 0 }
    }

    /// One more repository has been attempted.
    pub fn record_completion(&mut self)
        requires
            old(self).wf(),
            old(self).completed < old(self).total,
        ensures
            final(self).total == old(self).total,
            final(self).completed == old(self).completed + 1,
            final(self).wf(),
    {
        self.completed = self.completed + 1;
    }

    /// The position the indicator shows.
    pub fn position(&self) -> (r: usize)
        ensures
            r == self.completed,
    {
        self.completed
    }

    /// Whether every repository of the batch has been attempted.
    pub fn is_finished(&self) -> (r: bool)
        ensures
            r == (self.completed == self.total),
    {
        self.completed == self.total
    }
}

/// What one fetch came to: either it succeeded, or it failed with a
/// classified error. Failures are data; they never abort the batch.
#[derive(Debug, Clone)]
pub struct FetchOutcome {
    pub success: bool,
    pub error: Option<PendectorError>,
}

/// An outcome carries an error exactly when the fetch failed.
pub open spec fn fetch_outcome_wf(o: FetchOutcome) -> bool {
    o.success <==> o.error is None
}

/// Classify what one finished fetch run reported: `success` is the run's
/// exit status, `stderr` its failure text, `exit_code` its exit code, and
/// `timeout_secs` the wall-clock limit that was enforced on it.
pub fn fetch_outcome(
    repo_path: &str,
    success: bool,
    stderr: &str,
    exit_code: Option<i32>,
    timeout_secs: u64,
) -> (r: FetchOutcome)
    ensures
        fetch_outcome_wf(r),
        r.success == success,
        !success ==> (r.error matches Some(e) && is_fetch_error_classification(
            e,
            fetch_repo_name_view(repo_path@),
            stderr@,
            exit_code,
            timeout_secs,
        )),
{
    if success {
        FetchOutcome { success: true, error: None }
    } else {
        let e = PendectorError::from_fetch_error_with_timeout(
            repo_path.to_owned(),
            stderr,
            exit_code,
            timeout_secs,
        );
        FetchOutcome { success: false, error: Some(e) }
    }
}

/// A fetch cut off by its wall-clock limit -- exit code 124 from the
/// enforcing command -- is always reported as a timeout carrying the
/// enforced limit, never as a generic fetch failure.
pub proof fn lemma_timeout_reported_as_timeout(
    r: PendectorError,
    name: Seq<char>,
    stderr: Seq<char>,
    secs: u64,
)
    requires
        is_fetch_error_classification(r, name, stderr, Some(124i32), secs),
    ensures
        r matches PendectorError::TimeoutError { repo_path: rp, timeout_secs: t } && rp@ == name
            && t == secs,
{
}

} // verus!
