use fis::publish::PublishResult;
use fis::reconcile::{CommitId, MergeOutcome};
use fis::status::{ChangeKind, StatusEntry};
use fis::tick::{Action, Event, Phase, Tick, TickError};

fn id(n: u8) -> CommitId {
    CommitId { bytes: [n; 20] }
}

fn entry(path: &str, kind: ChangeKind) -> StatusEntry {
    StatusEntry { path: path.to_string(), kind }
}

fn fetched(remote: CommitId, remote_contained: bool, local_contained: bool) -> Event {
    Event::Fetched { remote_tip: remote, remote_contained, local_contained }
}

#[test]
fn clean_tick_does_nothing() {
    let (mut tick, a) = Tick::start(id(1), &Vec::new());
    assert!(matches!(a, Action::Fetch));
    let a = tick.step(fetched(id(1), true, true));
    assert!(matches!(a, Action::Finish));
    assert!(tick.is_done());
    assert!(!tick.committed);
    assert_eq!(tick.local_tip.bytes, id(1).bytes);
    assert!(matches!(tick.outcome, Some(MergeOutcome::AlreadyUpToDate)));
    assert_eq!(tick.publish, PublishResult::Skipped);
    assert_eq!(tick.failure, None);
}

#[test]
fn local_commit_parent_is_prior_tip() {
    let status = vec![entry("a.txt", ChangeKind::Modified), entry("b.txt", ChangeKind::Added)];
    let (mut tick, a) = Tick::start(id(4), &status);
    assert_eq!(tick.phase, Phase::Committing);
    match a {
        Action::Commit { parent, paths } => {
            assert_eq!(parent.bytes, id(4).bytes);
            assert_eq!(paths, vec!["a.txt".to_string(), "b.txt".to_string()]);
        },
        _ => panic!("expected a commit"),
    }
    let a = tick.step(Event::Committed { id: id(5) });
    assert!(matches!(a, Action::Fetch));
    assert_eq!(tick.start_tip.bytes, id(4).bytes);
    assert_eq!(tick.local_tip.bytes, id(5).bytes);
    assert!(tick.committed);
}

#[test]
fn fast_forward_takes_remote_tip_without_merge_or_push() {
    let (mut tick, _) = Tick::start(id(1), &Vec::new());
    let a = tick.step(fetched(id(2), false, true));
    match a {
        Action::FastForward { to } => assert_eq!(to.bytes, id(2).bytes),
        _ => panic!("expected a fast-forward"),
    }
    let a = tick.step(Event::FastForwarded);
    assert!(matches!(a, Action::Finish));
    assert_eq!(tick.local_tip.bytes, id(2).bytes);
    assert!(matches!(tick.outcome, Some(MergeOutcome::FastForwarded(c)) if c.bytes == id(2).bytes));
    assert_eq!(tick.publish, PublishResult::Skipped);
}

#[test]
fn untracked_file_is_committed_and_pushed() {
    let status = fis::status::scan(&vec![fis::status::RawEntry {
        path: "notes.txt".to_string(),
        flags: 128,
    }]);
    assert_eq!(status.len(), 1);
    assert_eq!(status[0].kind, ChangeKind::Untracked);
    let (mut tick, a) = Tick::start(id(1), &status);
    match a {
        Action::Commit { parent, paths } => {
            assert_eq!(parent.bytes, id(1).bytes);
            assert_eq!(paths, vec!["notes.txt".to_string()]);
        },
        _ => panic!("expected a commit"),
    }
    assert!(matches!(tick.step(Event::Committed { id: id(2) }), Action::Fetch));
    // the remote still stands at the prior tip, an ancestor of the new commit
    assert!(matches!(tick.step(fetched(id(1), true, false)), Action::Push));
    assert!(matches!(tick.outcome, Some(MergeOutcome::AlreadyUpToDate)));
    assert!(matches!(tick.step(Event::Pushed), Action::Finish));
    assert_eq!(tick.publish, PublishResult::Pushed);
    assert_eq!(tick.local_tip.bytes, id(2).bytes);
}

#[test]
fn unrelated_remote_commit_is_merged_and_pushed() {
    let (mut tick, a) = Tick::start(id(1), &vec![entry("a.txt", ChangeKind::Modified)]);
    assert!(matches!(a, Action::Commit { .. }));
    assert!(matches!(tick.step(Event::Committed { id: id(2) }), Action::Fetch));
    match tick.step(fetched(id(3), false, false)) {
        Action::Merge { local, remote } => {
            assert_eq!(local.bytes, id(2).bytes);
            assert_eq!(remote.bytes, id(3).bytes);
        },
        _ => panic!("expected a merge"),
    }
    assert_eq!(tick.phase, Phase::Merging);
    assert!(matches!(tick.step(Event::Merged { id: id(4) }), Action::Push));
    assert_eq!(tick.local_tip.bytes, id(4).bytes);
    assert!(matches!(tick.outcome, Some(MergeOutcome::Merged(c)) if c.bytes == id(4).bytes));
    assert!(matches!(tick.step(Event::Pushed), Action::Finish));
    assert_eq!(tick.publish, PublishResult::Pushed);
}

#[test]
fn merge_without_local_edits_is_still_pushed() {
    let (mut tick, _) = Tick::start(id(1), &Vec::new());
    assert!(matches!(tick.step(fetched(id(3), false, false)), Action::Merge { .. }));
    assert!(matches!(tick.step(Event::Merged { id: id(4) }), Action::Push));
}

#[test]
fn conflicting_edits_halt_the_tick() {
    let (mut tick, _) = Tick::start(id(1), &Vec::new());
    assert!(matches!(tick.step(fetched(id(3), false, false)), Action::Merge { .. }));
    let a = tick.step(Event::Conflicted { paths: vec!["shared.txt".to_string()] });
    assert!(matches!(a, Action::Finish));
    assert!(tick.is_done());
    assert!(!tick.committed);
    assert_eq!(tick.local_tip.bytes, id(1).bytes);
    assert_eq!(tick.remote_tip.bytes, id(3).bytes);
    match &tick.outcome {
        Some(MergeOutcome::Conflict(paths)) => assert_eq!(paths, &vec!["shared.txt".to_string()]),
        _ => panic!("expected a conflict"),
    }
    assert_eq!(tick.publish, PublishResult::Skipped);
}

#[test]
fn conflict_after_local_commit_is_not_pushed() {
    let (mut tick, _) = Tick::start(id(1), &vec![entry("shared.txt", ChangeKind::Modified)]);
    tick.step(Event::Committed { id: id(2) });
    tick.step(fetched(id(3), false, false));
    let a = tick.step(Event::Conflicted { paths: vec!["shared.txt".to_string()] });
    assert!(matches!(a, Action::Finish));
    assert_eq!(tick.local_tip.bytes, id(2).bytes);
    assert_eq!(tick.publish, PublishResult::Skipped);
}

#[test]
fn conflict_without_paths_is_unexpected() {
    let (mut tick, _) = Tick::start(id(1), &Vec::new());
    tick.step(fetched(id(3), false, false));
    assert!(matches!(tick.step(Event::Conflicted { paths: Vec::new() }), Action::Finish));
    assert_eq!(tick.failure, Some(TickError::Unexpected));
    assert!(tick.outcome.is_none());
}

#[test]
fn fetch_failure_ends_tick() {
    let (mut tick, _) = Tick::start(id(1), &Vec::new());
    let a = tick.step(Event::Failed { error: TickError::Network });
    assert!(matches!(a, Action::Finish));
    assert_eq!(tick.failure, Some(TickError::Network));
    assert!(tick.outcome.is_none());
}

#[test]
fn commit_failure_ends_tick() {
    let (mut tick, _) = Tick::start(id(1), &vec![entry("a.txt", ChangeKind::Modified)]);
    assert!(matches!(tick.step(Event::Failed { error: TickError::Backend }), Action::Finish));
    assert_eq!(tick.failure, Some(TickError::Backend));
    assert!(!tick.committed);
}

#[test]
fn out_of_order_event_is_unexpected() {
    let (mut tick, _) = Tick::start(id(1), &Vec::new());
    assert!(matches!(tick.step(Event::Pushed), Action::Finish));
    assert_eq!(tick.failure, Some(TickError::Unexpected));
    assert_eq!(tick.publish, PublishResult::Skipped);
}

#[test]
fn push_rejection_is_recorded() {
    let (mut tick, _) = Tick::start(id(1), &vec![entry("a.txt", ChangeKind::Added)]);
    tick.step(Event::Committed { id: id(2) });
    assert!(matches!(tick.step(fetched(id(1), true, false)), Action::Push));
    assert!(matches!(tick.step(Event::PushRejected), Action::Finish));
    assert_eq!(tick.publish, PublishResult::Rejected);
    assert_eq!(tick.failure, None);
}

#[test]
fn push_network_error_is_recorded() {
    let (mut tick, _) = Tick::start(id(1), &vec![entry("a.txt", ChangeKind::Added)]);
    tick.step(Event::Committed { id: id(2) });
    tick.step(fetched(id(1), true, false));
    assert!(matches!(tick.step(Event::PushFailed), Action::Finish));
    assert_eq!(tick.publish, PublishResult::NetworkError);
}

#[test]
fn fast_forward_after_local_commit_is_not_pushed() {
    let (mut tick, _) = Tick::start(id(1), &vec![entry("a.txt", ChangeKind::Added)]);
    tick.step(Event::Committed { id: id(2) });
    assert!(matches!(tick.step(fetched(id(3), false, true)), Action::FastForward { .. }));
    assert!(matches!(tick.step(Event::FastForwarded), Action::Finish));
    assert_eq!(tick.publish, PublishResult::Skipped);
}

#[test]
fn finished_tick_ignores_events() {
    let (mut tick, _) = Tick::start(id(1), &Vec::new());
    tick.step(fetched(id(1), true, true));
    assert!(matches!(tick.step(Event::Merged { id: id(9) }), Action::Finish));
    assert_eq!(tick.local_tip.bytes, id(1).bytes);
    assert_eq!(tick.failure, None);
    assert!(matches!(tick.outcome, Some(MergeOutcome::AlreadyUpToDate)));
}

#[test]
fn unresolved_conflict_is_reported_again_without_commit() {
    let status = vec![
        entry("a.txt", ChangeKind::Modified),
        entry("shared.txt", ChangeKind::Conflicted),
    ];
    let (mut tick, a) = Tick::start(id(2), &status);
    assert!(matches!(a, Action::Finish));
    assert!(tick.is_done());
    assert!(!tick.committed);
    assert_eq!(tick.local_tip.bytes, id(2).bytes);
    match &tick.outcome {
        Some(MergeOutcome::Conflict(paths)) => assert_eq!(paths, &vec!["shared.txt".to_string()]),
        _ => panic!("expected the conflict again"),
    }
    assert_eq!(tick.publish, PublishResult::Skipped);
    assert!(matches!(tick.step(Event::Pushed), Action::Finish));
    assert_eq!(tick.failure, None);
}

#[test]
fn resolved_conflict_resumes_normal_flow() {
    let (_, a) = Tick::start(id(2), &vec![entry("shared.txt", ChangeKind::Modified)]);
    match a {
        Action::Commit { parent, paths } => {
            assert_eq!(parent.bytes, id(2).bytes);
            assert_eq!(paths, vec!["shared.txt".to_string()]);
        },
        _ => panic!("expected a commit"),
    }
}
