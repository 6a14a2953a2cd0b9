use aelita::ci::CiId;
use aelita::db::{CiState, PendingEntry, PipelineDb, QueueEntry, RunningEntry};
use aelita::ui::Pr;
use aelita::vcs::Commit;

fn queue_entry(commit: &str, pr: &str) -> QueueEntry {
    QueueEntry {
        commit: Commit::from(commit.to_owned()),
        pr: Pr::from(pr.to_owned()),
        message: format!("message of {}", pr),
    }
}

fn pending_entry(commit: &str, pr: &str, title: &str) -> PendingEntry {
    PendingEntry {
        commit: Commit::from(commit.to_owned()),
        pr: Pr::from(pr.to_owned()),
        title: title.to_owned(),
        url: format!("http://example.com/{}", pr),
    }
}

#[test]
fn store_queue_is_first_in_first_out() {
    let mut db = PipelineDb::new();
    assert!(db.pop_queue().is_none());
    db.push_queue(queue_entry("a1", "1"));
    db.push_queue(queue_entry("b2", "2"));
    db.push_queue(queue_entry("c3", "3"));
    assert_eq!(db.list_queue().len(), 3);
    assert_eq!(db.pop_queue(), Some(queue_entry("a1", "1")));
    assert_eq!(db.pop_queue(), Some(queue_entry("b2", "2")));
    db.push_queue(queue_entry("d4", "4"));
    assert_eq!(db.pop_queue(), Some(queue_entry("c3", "3")));
    assert_eq!(db.pop_queue(), Some(queue_entry("d4", "4")));
    assert!(db.pop_queue().is_none());
}

#[test]
fn store_pending_read_after_write() {
    let mut db = PipelineDb::new();
    assert!(db.peek_pending_by_pr(&Pr::from("7".to_owned())).is_none());
    db.add_pending(pending_entry("a1", "7", "first"));
    db.add_pending(pending_entry("b2", "8", "other"));
    assert_eq!(
        db.peek_pending_by_pr(&Pr::from("7".to_owned())),
        Some(pending_entry("a1", "7", "first"))
    );
    // A second record of the same pull request replaces the first.
    db.add_pending(pending_entry("c3", "7", "second"));
    assert_eq!(db.list_pending().len(), 2);
    assert_eq!(
        db.peek_pending_by_pr(&Pr::from("7".to_owned())),
        Some(pending_entry("c3", "7", "second"))
    );
    assert_eq!(
        db.peek_pending_by_pr(&Pr::from("8".to_owned())),
        Some(pending_entry("b2", "8", "other"))
    );
    assert_eq!(
        db.take_pending_by_pr(&Pr::from("7".to_owned())),
        Some(pending_entry("c3", "7", "second"))
    );
    assert!(db.peek_pending_by_pr(&Pr::from("7".to_owned())).is_none());
    assert_eq!(db.list_pending(), vec![pending_entry("b2", "8", "other")]);
}

#[test]
fn store_cancel_by_pr() {
    let mut db = PipelineDb::new();
    db.push_queue(queue_entry("a1", "1"));
    db.push_queue(queue_entry("b2", "2"));
    db.push_queue(queue_entry("a3", "1"));
    db.put_running(RunningEntry {
        pull_commit: Commit::from("a0".to_owned()),
        merge_commit: None,
        pr: Pr::from("1".to_owned()),
        message: String::new(),
        canceled: false,
        built: false,
    });
    db.cancel_by_pr(&Pr::from("1".to_owned()));
    assert_eq!(db.list_queue(), vec![queue_entry("b2", "2")]);
    assert!(db.peek_running().unwrap().canceled);
}

#[test]
fn store_cancel_by_pr_different_commit() {
    let mut db = PipelineDb::new();
    db.push_queue(queue_entry("a1", "1"));
    db.push_queue(queue_entry("b2", "2"));
    assert!(!db.cancel_by_pr_different_commit(&Pr::from("1".to_owned()), &Commit::from("a1".to_owned())));
    assert_eq!(db.list_queue().len(), 2);
    assert!(db.cancel_by_pr_different_commit(&Pr::from("1".to_owned()), &Commit::from("a9".to_owned())));
    assert_eq!(db.list_queue(), vec![queue_entry("b2", "2")]);
}

#[test]
fn store_ci_state_read_after_write() {
    let mut db = PipelineDb::new();
    assert!(db.get_ci_state(CiId(3)).is_none());
    db.set_ci_state(CiId(3), CiState::Succeeded, Commit::from("abc".to_owned()));
    db.set_ci_state(CiId(4), CiState::Failed, Commit::from("def".to_owned()));
    assert_eq!(
        db.get_ci_state(CiId(3)),
        Some((CiState::Succeeded, Commit::from("abc".to_owned())))
    );
    db.set_ci_state(CiId(3), CiState::Failed, Commit::from("abd".to_owned()));
    assert_eq!(
        db.get_ci_state(CiId(3)),
        Some((CiState::Failed, Commit::from("abd".to_owned())))
    );
    db.clear_ci_state(CiId(3));
    assert!(db.get_ci_state(CiId(3)).is_none());
    assert_eq!(
        db.get_ci_state(CiId(4)),
        Some((CiState::Failed, Commit::from("def".to_owned())))
    );
    assert_eq!(CiState::from_i32(CiState::Failed.to_i32()), CiState::Failed);
}

#[test]
fn store_add_pending_replaces_every_record_of_the_pr() {
    let mut db = PipelineDb::new();
    db.pending.push(pending_entry("a1", "7", "first"));
    db.pending.push(pending_entry("b2", "8", "other"));
    db.pending.push(pending_entry("c3", "7", "second"));
    db.add_pending(pending_entry("d4", "7", "third"));
    assert_eq!(db.list_pending(), vec![pending_entry("b2", "8", "other"), pending_entry("d4", "7", "third")]);
    db.add_pending(pending_entry("e5", "7", "fourth"));
    assert_eq!(
        db.peek_pending_by_pr(&Pr::from("7".to_owned())),
        Some(pending_entry("e5", "7", "fourth"))
    );
    assert_eq!(db.list_pending().len(), 2);
    assert!(db.take_pending_by_pr(&Pr::from("7".to_owned())).is_some());
    assert!(db.peek_pending_by_pr(&Pr::from("7".to_owned())).is_none());
}
