use vstd::prelude::*;
use crate::publish::{needs_push, needs_push_spec, PublishResult};
use crate::reconcile::{analysis_of, analyze, CommitId, MergeAnalysis, MergeOutcome, OutcomeView};
use crate::status::{
    conflicted_paths, conflicts_of, conflicts_of_nonempty, is_dirty, paths_of, staged_paths,
    status_view, strings_view, ChangeKind, StatusEntry,
};

verus! {

/// Where a tick stands: the phase names what the tick waits for.
#[derive(Clone, Copy, Debug, PartialEq, Eq, Structural)]
pub enum Phase {
    /// Waiting for the automated commit to be written.
    Committing,
    /// Waiting for the fetch of the remote branch.
    Fetching,
    /// Waiting for the local branch to move to the remote tip.
    FastForwarding,
    /// Waiting for the three-way merge.
    Merging,
    /// Waiting for the push.
    Publishing,
    /// The tick is over.
    Done,
}

/// Why a tick stopped early. None of these ends the daemon: the next tick
/// starts from scratch.
#[derive(Clone, Copy, Debug, PartialEq, Eq, Structural)]
pub enum TickError {
    /// The repository could not be read or written.
    Backend,
    /// The remote could not be reached.
    Network,
    /// The driver reported an event that the tick did not wait for.
    Unexpected,
}

/// What the driver reports after carrying out an action.
pub enum Event {
    /// The automated commit was written; `id` is the new local tip.
    Committed { id: CommitId },
    /// The remote branch was fetched. `remote_contained`: its tip is an
    /// ancestor of or equal to the local tip; `local_contained`: the local tip
    /// is an ancestor of or equal to the remote tip.
    Fetched { remote_tip: CommitId, remote_contained: bool, local_contained: bool },
    /// The local branch and the working tree now stand at the remote tip.
    FastForwarded,
    /// The merge applied cleanly and committed `id`, with the two tips as parents.
    Merged { id: CommitId },
    /// The merge stopped on these paths; nothing was committed.
    Conflicted { paths: Vec<String> },
    Pushed,
    /// The remote refused a push that is not a fast-forward.
    PushRejected,
    /// The push failed on the network.
    PushFailed,
    /// The action failed.
    Failed { error: TickError },
}

/// What the driver is to do next.
pub enum Action {
    /// Stage `paths` and commit them with `parent` as the single parent.
    Commit { parent: CommitId, paths: Vec<String> },
    /// Fetch the tracked branch from the remote.
    Fetch,
    /// Move the local branch and the working tree to `to`.
    FastForward { to: CommitId },
    /// Merge `remote` into `local`, committing with both as parents if clean.
    Merge { local: CommitId, remote: CommitId },
    /// Push the local branch to the remote.
    Push,
    /// Nothing more: the tick is over.
    Finish,
}

/// An action as a mathematical value.
pub enum ActionView {
    Commit { parent: CommitId, paths: Seq<Seq<char>> },
    Fetch,
    FastForward { to: CommitId },
    Merge { local: CommitId, remote: CommitId },
    Push,
    Finish,
}

impl View for Action {
    type V = ActionView;

    open spec fn view(&self) -> ActionView {
        match self {
            Action::Commit { parent, paths } => ActionView::Commit {
                parent: *parent,
                paths: strings_view(paths@),
            },
            Action::Fetch => ActionView::Fetch,
            Action::FastForward { to } => ActionView::FastForward { to: *to },
            Action::Merge { local, remote } => ActionView::Merge { local: *local, remote: *remote },
            Action::Push => ActionView::Push,
            Action::Finish => ActionView::Finish,
        }
    }
}

/// The state of one tick.
pub struct Tick {
    pub phase: Phase,
    /// The local tip when the tick began.
    pub start_tip: CommitId,
    pub local_tip: CommitId,
    /// The remote tip as last fetched; the start tip until the fetch.
    pub remote_tip: CommitId,
    /// Whether this tick wrote an automated commit.
    pub committed: bool,
    pub outcome: Option<MergeOutcome>,
    pub publish: PublishResult,
    pub failure: Option<TickError>,
}

/// The state of a tick as a mathematical value.
pub struct TickView {
    pub phase: Phase,
    pub start_tip: CommitId,
    pub local_tip: CommitId,
    pub remote_tip: CommitId,
    pub committed: bool,
    pub outcome: Option<OutcomeView>,
    pub publish: PublishResult,
    pub failure: Option<TickError>,
}

impl View for Tick {
    type V = TickView;

    open spec fn view(&self) -> TickView {
        TickView {
            phase: self.phase,
            start_tip: self.start_tip,
            local_tip: self.local_tip,
            remote_tip: self.remote_tip,
            committed: self.committed,
            outcome: match self.outcome {
                Some(o) => Some(o@),
                None => None,
            },
            publish: self.publish,
            failure: self.failure,
        }
    }
}

/// A tick that begins at `head` with the working-tree status `status`. A
/// conflict that an earlier merge left unresolved is reported again and ends
/// the tick: nothing is committed, fetched or pushed. Otherwise a dirty tree
/// is committed first, on top of `head`, with every changed path; a clean one
/// goes straight to the fetch.
pub open spec fn start_spec(head: CommitId, status: Seq<(Seq<char>, ChangeKind)>) -> (
    TickView,
    ActionView,
) {
    let t = TickView {
        phase: if status.len() == 0 {
            Phase::Fetching
        } else {
            Phase::Committing
        },
        start_tip: head,
        local_tip: head,
        remote_tip: head,
        committed: false,
        outcome: None,
        publish: PublishResult::Skipped,
        failure: None,
    };
    let conflicts = conflicts_of(status);
    if conflicts.len() > 0 {
        (
            TickView {
                phase: Phase::Done,
                outcome: Some(OutcomeView::Conflict(conflicts)),
                ..t
            },
            ActionView::Finish,
        )
    } else if status.len() == 0 {
        (t, ActionView::Fetch)
    } else {
        (t, ActionView::Commit { parent: head, paths: paths_of(status) })
    }
}

/// Records the reconciliation outcome, then pushes if history advanced here.
pub open spec fn settle_spec(t: TickView, outcome: OutcomeView) -> (TickView, ActionView) {
    if needs_push_spec(t.committed, outcome) {
        (TickView { phase: Phase::Publishing, outcome: Some(outcome), ..t }, ActionView::Push)
    } else {
        (TickView { phase: Phase::Done, outcome: Some(outcome), ..t }, ActionView::Finish)
    }
}

/// Ends the tick on an error, leaving everything else as it was.
pub open spec fn abort_spec(t: TickView, error: TickError) -> (TickView, ActionView) {
    (TickView { phase: Phase::Done, failure: Some(error), ..t }, ActionView::Finish)
}

/// Ends the tick after a push attempt.
pub open spec fn published_spec(t: TickView, result: PublishResult) -> (TickView, ActionView) {
    (TickView { phase: Phase::Done, publish: result, ..t }, ActionView::Finish)
}

/// One transition of a tick: the state after `e` and the next action.
pub open spec fn next(t: TickView, e: Event) -> (TickView, ActionView) {
    if t.phase == Phase::Done {
        (t, ActionView::Finish)
    } else {
        match e {
            Event::Failed { error } => abort_spec(t, error),
            Event::Committed { id } => if t.phase == Phase::Committing {
                (
                    TickView { phase: Phase::Fetching, local_tip: id, committed: true, ..t },
                    ActionView::Fetch,
                )
            } else {
                abort_spec(t, TickError::Unexpected)
            },
            Event::Fetched { remote_tip, remote_contained, local_contained } => if t.phase
                == Phase::Fetching {
                let t1 = TickView { remote_tip, ..t };
                match analysis_of(remote_contained, local_contained) {
                    MergeAnalysis::UpToDate => settle_spec(t1, OutcomeView::AlreadyUpToDate),
                    MergeAnalysis::FastForward => (
                        TickView { phase: Phase::FastForwarding, ..t1 },
                        ActionView::FastForward { to: remote_tip },
                    ),
                    MergeAnalysis::Diverged => (
                        TickView { phase: Phase::Merging, ..t1 },
                        ActionView::Merge { local: t.local_tip, remote: remote_tip },
                    ),
                }
            } else {
                abort_spec(t, TickError::Unexpected)
            },
            Event::FastForwarded => if t.phase == Phase::FastForwarding {
                settle_spec(
                    TickView { local_tip: t.remote_tip, ..t },
                    OutcomeView::FastForwarded(t.remote_tip),
                )
            } else {
                abort_spec(t, TickError::Unexpected)
            },
            Event::Merged { id } => if t.phase == Phase::Merging {
                settle_spec(TickView { local_tip: id, ..t }, OutcomeView::Merged(id))
            } else {
                abort_spec(t, TickError::Unexpected)
            },
            Event::Conflicted { paths } => if t.phase == Phase::Merging && paths@.len() > 0 {
                (
                    TickView {
                        phase: Phase::Done,
                        outcome: Some(OutcomeView::Conflict(strings_view(paths@))),
                        ..t
                    },
                    ActionView::Finish,
                )
            } else {
                abort_spec(t, TickError::Unexpected)
            },
            Event::Pushed => if t.phase == Phase::Publishing {
                published_spec(t, PublishResult::Pushed)
            } else {
                abort_spec(t, TickError::Unexpected)
            },
            Event::PushRejected => if t.phase == Phase::Publishing {
                published_spec(t, PublishResult::Rejected)
            } else {
                abort_spec(t, TickError::Unexpected)
            },
            Event::PushFailed => if t.phase == Phase::Publishing {
                published_spec(t, PublishResult::NetworkError)
            } else {
                abort_spec(t, TickError::Unexpected)
            },
        }
    }
}

impl Tick {
    /// Begins a tick at the local tip `head` with the scanned status.
    pub fn start(head: CommitId, status: &Vec<StatusEntry>) -> (r: (Tick, Action))
        ensures
            (r.0@, r.1@) == start_spec(head, status_view(status@)),
    {
        let dirty = is_dirty(status);
        let conflicts = conflicted_paths(status);
        let mut tick = Tick {
            phase: if dirty {
                Phase::Committing
            } else {
                Phase::Fetching
            },
            start_tip: head,
            local_tip: head,
            remote_tip: head,
            committed: false,
            outcome: None,
            publish: PublishResult::Skipped,
            failure: None,
        };
        if conflicts.len() > 0 {
            tick.phase = Phase::Done;
            tick.outcome = Some(MergeOutcome::Conflict(conflicts));
            (tick, Action::Finish)
        } else if dirty {
            let paths = staged_paths(status);
            (tick, Action::Commit { parent: head, paths })
        } else {
            (tick, Action::Fetch)
        }
    }

    fn settle(&mut self, outcome: MergeOutcome) -> (a: Action)
        ensures
            (final(self)@, a@) == settle_spec(old(self)@, outcome@),
    {
        let push = needs_push(self.committed, &outcome);
        self.outcome = Some(outcome);
        if push {
            self.phase = Phase::Publishing;
            Action::Push
        } else {
            self.phase = Phase::Done;
            Action::Finish
        }
    }

    fn abort(&mut self, error: TickError) -> (a: Action)
        ensures
            (final(self)@, a@) == abort_spec(old(self)@, error),
    {
        self.phase = Phase::Done;
        self.failure = Some(error);
        Action::Finish
    }

    fn published(&mut self, result: PublishResult) -> (a: Action)
        ensures
            (final(self)@, a@) == published_spec(old(self)@, result),
    {
        self.phase = Phase::Done;
        self.publish = result;
        Action::Finish
    }

    /// Advances the tick by the driver's report of the last action.
    pub fn step(&mut self, event: Event) -> (a: Action)
        ensures
            (final(self)@, a@) == next(old(self)@, event),
    {
        if self.phase == Phase::Done {
            return Action::Finish;
        }
        match event {
            Event::Failed { error } => self.abort(error),
            Event::Committed { id } => {
                if self.phase == Phase::Committing {
                    self.phase = Phase::Fetching;
                    self.local_tip = id;
                    self.committed = true;
                    Action::Fetch
                } else {
                    self.abort(TickError::Unexpected)
                }
            },
            Event::Fetched { remote_tip, remote_contained, local_contained } => {
                if self.phase == Phase::Fetching {
                    self.remote_tip = remote_tip;
                    match analyze(remote_contained, local_contained) {
                        MergeAnalysis::UpToDate => self.settle(MergeOutcome::AlreadyUpToDate),
                        MergeAnalysis::FastForward => {
                            self.phase = Phase::FastForwarding;
                            Action::FastForward { to: remote_tip }
                        },
                        MergeAnalysis::Diverged => {
                            self.phase = Phase::Merging;
                            Action::Merge { local: self.local_tip, remote: remote_tip }
                        },
                    }
                } else {
                    self.abort(TickError::Unexpected)
                }
            },
            Event::FastForwarded => {
                if self.phase == Phase::FastForwarding {
                    self.local_tip = self.remote_tip;
                    let to = self.remote_tip;
                    self.settle(MergeOutcome::FastForwarded(to))
                } else {
                    self.abort(TickError::Unexpected)
                }
            },
            Event::Merged { id } => {
                if self.phase == Phase::Merging {
                    self.local_tip = id;
                    self.settle(MergeOutcome::Merged(id))
                } else {
                    self.abort(TickError::Unexpected)
                }
            },
            Event::Conflicted { paths } => {
                if self.phase == Phase::Merging && paths.len() > 0 {
                    self.phase = Phase::Done;
                    self.outcome = Some(MergeOutcome::Conflict(paths));
                    Action::Finish
                } else {
                    self.abort(TickError::Unexpected)
                }
            },
            Event::Pushed => {
                if self.phase == Phase::Publishing {
                    self.published(PublishResult::Pushed)
                } else {
                    self.abort(TickError::Unexpected)
                }
            },
            Event::PushRejected => {
                if self.phase == Phase::Publishing {
                    self.published(PublishResult::Rejected)
                } else {
                    self.abort(TickError::Unexpected)
                }
            },
            Event::PushFailed => {
                if self.phase == Phase::Publishing {
                    self.published(PublishResult::NetworkError)
                } else {
                    self.abort(TickError::Unexpected)
                }
            },
        }
    }

    /// Whether the tick is over.
    pub fn is_done(&self) -> (r: bool)
        ensures
            r == (self@.phase == Phase::Done),
    {
        self.phase == Phase::Done
    }
}

/// The invariant of a tick: a push is awaited only after history advanced by
/// a commit made in this tick, a conflict always names its paths, and no
/// outcome exists before reconciliation ends, and no push result or failure
/// before the tick is over.
pub open spec fn wf(t: TickView) -> bool {
    &&& t.phase != Phase::Done ==> t.publish == PublishResult::Skipped && t.failure is None
    &&& t.phase == Phase::Publishing ==> t.outcome is Some && needs_push_spec(
        t.committed,
        t.outcome.unwrap(),
    )
    &&& (t.outcome matches Some(OutcomeView::Conflict(paths)) ==> paths.len() > 0)
    &&& (t.phase == Phase::Committing || t.phase == Phase::Fetching || t.phase
        == Phase::FastForwarding || t.phase == Phase::Merging) ==> t.outcome is None
}

/// Every tick begins in a state that meets the invariant.
pub proof fn start_wf(head: CommitId, status: Seq<(Seq<char>, ChangeKind)>)
    ensures
        wf(start_spec(head, status).0),
{
}

/// Every transition keeps the invariant.
pub proof fn next_wf(t: TickView, e: Event)
    requires
        wf(t),
    ensures
        wf(next(t, e).0),
{
}

/// A clean tick is idle: when the working tree matches the last commit and
/// the fetched remote tip equals the local tip, the tick fetches and ends,
/// with no commit, no merge and no push, the outcome being already up to date.
pub proof fn clean_tick_is_idle(head: CommitId)
    ensures
        ({
            let (t1, a1) = start_spec(head, seq![]);
            let (t2, a2) = next(
                t1,
                Event::Fetched { remote_tip: head, remote_contained: true, local_contained: true },
            );
            &&& a1 == ActionView::Fetch
            &&& a2 == ActionView::Finish
            &&& t2.phase == Phase::Done
            &&& !t2.committed
            &&& t2.local_tip == head
            &&& t2.outcome == Some(OutcomeView::AlreadyUpToDate)
            &&& t2.publish == PublishResult::Skipped
            &&& t2.failure is None
        }),
{
}

/// Local changes are committed before reconciliation, on top of the tip the
/// tick began with, with every changed path; the new commit becomes the local
/// tip and the tick goes on to fetch.
pub proof fn commit_precedes_reconcile(
    head: CommitId,
    status: Seq<(Seq<char>, ChangeKind)>,
    id: CommitId,
)
    requires
        status.len() > 0,
        conflicts_of(status).len() == 0,
    ensures
        ({
            let (t1, a1) = start_spec(head, status);
            let (t2, a2) = next(t1, Event::Committed { id });
            &&& a1 == ActionView::Commit { parent: head, paths: paths_of(status) }
            &&& a2 == ActionView::Fetch
            &&& t2.start_tip == head
            &&& t2.local_tip == id
            &&& t2.committed
        }),
{
}

/// When the local tip is a strict ancestor of the fetched remote tip, the
/// tick fast-forwards: the local tip becomes the remote tip, no merge is
/// asked for and nothing is pushed.
pub proof fn fast_forward_reaches_remote(t: TickView, remote_tip: CommitId)
    requires
        wf(t),
        t.phase == Phase::Fetching,
    ensures
        ({
            let (t1, a1) = next(
                t,
                Event::Fetched { remote_tip, remote_contained: false, local_contained: true },
            );
            let (t2, a2) = next(t1, Event::FastForwarded);
            &&& a1 == ActionView::FastForward { to: remote_tip }
            &&& a2 == ActionView::Finish
            &&& t2.local_tip == remote_tip
            &&& t2.outcome == Some(OutcomeView::FastForwarded(remote_tip))
            &&& t2.phase == Phase::Done
            &&& t2.publish == PublishResult::Skipped
        }),
{
}

/// When the tips diverge, the merge is asked for with the local and the
/// remote tip as its two parents; a clean merge commit becomes the local tip
/// and is pushed.
pub proof fn divergence_merges_both_tips(t: TickView, remote_tip: CommitId, id: CommitId)
    requires
        t.phase == Phase::Fetching,
    ensures
        ({
            let (t1, a1) = next(
                t,
                Event::Fetched { remote_tip, remote_contained: false, local_contained: false },
            );
            let (t2, a2) = next(t1, Event::Merged { id });
            &&& a1 == ActionView::Merge { local: t.local_tip, remote: remote_tip }
            &&& a2 == ActionView::Push
            &&& t2.local_tip == id
            &&& t2.remote_tip == remote_tip
            &&& t2.outcome == Some(OutcomeView::Merged(id))
        }),
{
}

/// A conflicting merge ends the tick with both tips where they were, the
/// conflicting paths reported and nothing pushed.
pub proof fn conflict_moves_nothing(t: TickView, remote_tip: CommitId, paths: Vec<String>)
    requires
        wf(t),
        t.phase == Phase::Fetching,
        paths@.len() > 0,
    ensures
        ({
            let (t1, a1) = next(
                t,
                Event::Fetched { remote_tip, remote_contained: false, local_contained: false },
            );
            let (t2, a2) = next(t1, Event::Conflicted { paths });
            &&& a2 == ActionView::Finish
            &&& t2.phase == Phase::Done
            &&& t2.local_tip == t.local_tip
            &&& t2.remote_tip == remote_tip
            &&& t2.committed == t.committed
            &&& t2.outcome == Some(OutcomeView::Conflict(strings_view(paths@)))
            &&& t2.publish == PublishResult::Skipped
        }),
{
}

/// A conflict left unresolved by an earlier tick is reported again: the tick
/// ends at once with the conflicted paths as its outcome, commits nothing,
/// keeps the local tip and never pushes, whatever events follow.
pub proof fn unresolved_conflict_is_reported_again(
    head: CommitId,
    status: Seq<(Seq<char>, ChangeKind)>,
    i: int,
    events: Seq<Event>,
)
    requires
        0 <= i < status.len(),
        status[i].1 == ChangeKind::Conflicted,
    ensures
        ({
            let (t1, a1) = start_spec(head, status);
            let (tn, actions) = run(t1, events);
            &&& a1 == ActionView::Finish
            &&& t1.phase == Phase::Done
            &&& !t1.committed
            &&& t1.local_tip == head
            &&& t1.outcome == Some(OutcomeView::Conflict(conflicts_of(status)))
            &&& conflicts_of(status).len() > 0
            &&& t1.publish == PublishResult::Skipped
            &&& tn == t1
            &&& !actions.contains(ActionView::Push)
        }),
{
    conflicts_of_nonempty(status, i);
    let (t1, a1) = start_spec(head, status);
    done_stays(t1, events);
}

/// A finished tick stays as it is and asks only to finish.
pub proof fn done_stays(t: TickView, events: Seq<Event>)
    requires
        t.phase == Phase::Done,
    ensures
        run(t, events).0 == t,
        forall|j: int| 0 <= j < run(t, events).1.len() ==> run(t, events).1[j] == ActionView::Finish,
    decreases events.len(),
{
    if events.len() > 0 {
        done_stays(t, events.subrange(1, events.len() as int));
    }
}

/// A push is asked for only after this tick committed, either local changes
/// or a merge: a tick that leaves the local tip where it began never pushes.
pub proof fn push_only_after_advance(t: TickView, e: Event)
    requires
        wf(t),
    ensures
        next(t, e).1 == ActionView::Push ==> next(t, e).0.committed || next(t, e).0.outcome
            matches Some(OutcomeView::Merged(_)),
        next(t, e).1 == ActionView::Push ==> next(t, e).0.phase == Phase::Publishing,
{
}

/// Whether the tick made a commit of its own: an automated commit or a merge.
pub open spec fn advanced(t: TickView) -> bool {
    t.committed || t.outcome matches Some(OutcomeView::Merged(_))
}

/// The states and actions of a tick driven by `events` in order: the final
/// state and every action asked for on the way.
pub open spec fn run(t: TickView, events: Seq<Event>) -> (TickView, Seq<ActionView>)
    decreases events.len(),
{
    if events.len() == 0 {
        (t, seq![])
    } else {
        let (t1, a) = next(t, events[0]);
        let (tn, rest) = run(t1, events.subrange(1, events.len() as int));
        (tn, seq![a] + rest)
    }
}

/// Once a tick has committed, it stays so.
pub proof fn advanced_stays(t: TickView, e: Event)
    requires
        wf(t),
        advanced(t),
    ensures
        advanced(next(t, e).0),
{
}

/// Driving a tick keeps its invariant, and a tick that asked for a push on
/// the way, or had committed already, ends having committed.
pub proof fn run_push_needs_advance(t: TickView, events: Seq<Event>)
    requires
        wf(t),
    ensures
        wf(run(t, events).0),
        (run(t, events).1.contains(ActionView::Push) || advanced(t)) ==> advanced(
            run(t, events).0,
        ),
    decreases events.len(),
{
    if events.len() > 0 {
        let (t1, a) = next(t, events[0]);
        let rest_events = events.subrange(1, events.len() as int);
        let (tn, rest) = run(t1, rest_events);
        next_wf(t, events[0]);
        push_only_after_advance(t, events[0]);
        if advanced(t) {
            advanced_stays(t, events[0]);
        }
        run_push_needs_advance(t1, rest_events);
        let acts = seq![a] + rest;
        if acts.contains(ActionView::Push) {
            let i = choose|i: int| 0 <= i < acts.len() && acts[i] == ActionView::Push;
            if i > 0 {
                assert(rest[i - 1] == ActionView::Push);
                assert(rest.contains(ActionView::Push));
            }
        }
    }
}

/// A whole tick pushes only if it committed: from its start through any
/// sequence of reported events, a push is asked for only where the tick made
/// an automated commit or a merge commit.
pub proof fn tick_pushes_only_after_advance(
    head: CommitId,
    status: Seq<(Seq<char>, ChangeKind)>,
    events: Seq<Event>,
)
    ensures
        ({
            let (t0, a0) = start_spec(head, status);
            let (tn, actions) = run(t0, events);
            &&& a0 != ActionView::Push
            &&& actions.contains(ActionView::Push) ==> advanced(tn)
        }),
{
    let (t0, a0) = start_spec(head, status);
    start_wf(head, status);
    run_push_needs_advance(t0, events);
}

} // verus!
