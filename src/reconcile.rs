use vstd::prelude::*;
use crate::status::strings_view;

verus! {

/// The id of a commit: the 20 bytes of its object hash.
#[derive(Clone, Copy, Debug)]
pub struct CommitId {
    pub bytes: [u8; 20],
}

/// How the local tip stands to the fetched remote tip.
#[derive(Clone, Copy, Debug, PartialEq, Eq, Structural)]
pub enum MergeAnalysis {
    /// The remote tip is an ancestor of, or equal to, the local tip.
    UpToDate,
    /// The local tip is a strict ancestor of the remote tip.
    FastForward,
    /// Neither tip is an ancestor of the other.
    Diverged,
}

/// The relation of the two tips, from the two ancestry facts. A remote tip
/// already contained locally needs nothing; a fast-forward is preferred to a
/// merge whenever it is possible.
pub open spec fn analysis_of(remote_contained: bool, local_contained: bool) -> MergeAnalysis {
    if remote_contained {
        MergeAnalysis::UpToDate
    } else if local_contained {
        MergeAnalysis::FastForward
    } else {
        MergeAnalysis::Diverged
    }
}

/// Classifies the relation of the local tip and the fetched remote tip.
/// `remote_contained`: the remote tip is an ancestor of or equal to the local
/// tip; `local_contained`: the local tip is an ancestor of or equal to the
/// remote tip.
pub fn analyze(remote_contained: bool, local_contained: bool) -> (r: MergeAnalysis)
    ensures
        r == analysis_of(remote_contained, local_contained),
{
    if remote_contained {
        MergeAnalysis::UpToDate
    } else if local_contained {
        MergeAnalysis::FastForward
    } else {
        MergeAnalysis::Diverged
    }
}

/// The result of reconciling with the remote.
pub enum MergeOutcome {
    AlreadyUpToDate,
    FastForwarded(CommitId),
    Merged(CommitId),
    /// The merge stopped on these conflicting paths; nothing was committed.
    Conflict(Vec<String>),
}

/// A reconciliation result as a mathematical value.
pub enum OutcomeView {
    AlreadyUpToDate,
    FastForwarded(CommitId),
    Merged(CommitId),
    Conflict(Seq<Seq<char>>),
}

impl View for MergeOutcome {
    type V = OutcomeView;

    open spec fn view(&self) -> OutcomeView {
        match self {
            MergeOutcome::AlreadyUpToDate => OutcomeView::AlreadyUpToDate,
            MergeOutcome::FastForwarded(id) => OutcomeView::FastForwarded(*id),
            MergeOutcome::Merged(id) => OutcomeView::Merged(*id),
            MergeOutcome::Conflict(paths) => OutcomeView::Conflict(strings_view(paths@)),
        }
    }
}

impl MergeOutcome {
    /// Whether the outcome is a conflict.
    pub fn is_conflict(&self) -> (r: bool)
        ensures
            r == (self@ is Conflict),
    {
        match self {
            MergeOutcome::Conflict(_) => true,
            _ => false,
        }
    }
}

} // verus!
