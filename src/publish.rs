use vstd::prelude::*;
use vstd::string::StringExecFns;
use crate::reconcile::{MergeOutcome, OutcomeView};

verus! {

/// Name of the remote that the daemon syncs with.
pub const REMOTE: &'static str = "origin";

/// The one branch that the daemon tracks.
pub const BRANCH: &'static str = "main";

/// What became of publishing in one tick.
#[derive(Clone, Copy, Debug, PartialEq, Eq, Structural)]
pub enum PublishResult {
    /// No push was attempted.
    Skipped,
    Pushed,
    /// The remote advanced again since the fetch; the next tick reconciles.
    Rejected,
    /// The push failed on the network; the next tick retries.
    NetworkError,
}

/// Whether a tick publishes: only where history advanced by a commit made
/// here, an automated commit the remote did not hold or a merge commit. A
/// fast-forward brings nothing the remote lacks, and a conflict halts the tick.
pub open spec fn needs_push_spec(committed: bool, outcome: OutcomeView) -> bool {
    match outcome {
        OutcomeView::AlreadyUpToDate => committed,
        OutcomeView::Merged(_) => true,
        OutcomeView::FastForwarded(_) => false,
        OutcomeView::Conflict(_) => false,
    }
}

/// Decides whether to push after reconciliation.
pub fn needs_push(committed: bool, outcome: &MergeOutcome) -> (r: bool)
    ensures
        r == needs_push_spec(committed, outcome@),
{
    match outcome {
        MergeOutcome::AlreadyUpToDate => committed,
        MergeOutcome::Merged(_) => true,
        MergeOutcome::FastForwarded(_) => false,
        MergeOutcome::Conflict(_) => false,
    }
}

/// The ref mapping that a push of `branch` uses: the local branch onto the
/// remote branch of the same name.
pub open spec fn refspec_of(branch: Seq<char>) -> Seq<char> {
    "refs/heads/"@ + branch + ":refs/heads/"@ + branch
}

/// Builds the push refspec of a branch.
pub fn push_refspec(branch: &str) -> (r: String)
    ensures
        r@ == refspec_of(branch@),
{
    let mut s = String::from_str("refs/heads/");
    s.append(branch);
    s.append(":refs/heads/");
    s.append(branch);
    s
}

} // verus!
