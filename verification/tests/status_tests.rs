use dadmin::status::FileEntry;
use dadmin::status::FileState;
use dadmin::status::WorkingTreeStatus;
use dadmin::status::classify;

fn fe(path: &str, state: FileState) -> FileEntry {
    FileEntry { path: path.to_string(), state }
}

#[test]
fn classify_buckets_entries() {
    let files = vec![
        fe("a.txt", FileState::Modified),
        fe("b.txt", FileState::Untracked),
        fe("c.txt", FileState::Deleted),
        fe("d.txt", FileState::Unchanged),
    ];
    let status = classify(&files);
    assert_eq!(status.addable, vec!["a.txt".to_string(), "b.txt".to_string()]);
    assert_eq!(status.deleted, vec!["c.txt".to_string()]);
    assert!(!status.conflict);
    assert!(status.can_commit());
    assert!(status.should_commit());
}

#[test]
fn classify_flags_conflicts() {
    let files = vec![fe("a.txt", FileState::Modified), fe("b.txt", FileState::Conflicted)];
    let status = classify(&files);
    assert!(status.conflict);
    assert!(!status.can_commit());
    assert!(!status.should_commit());
}

#[test]
fn should_commit_false_without_changes() {
    let status = WorkingTreeStatus { addable: Vec::new(), deleted: Vec::new(), conflict: false };
    assert!(status.can_commit());
    assert!(!status.should_commit());
}

#[test]
fn classify_clean_tree_has_nothing_to_commit() {
    let files = vec![fe("a.txt", FileState::Unchanged)];
    let status = classify(&files);
    assert!(status.addable.is_empty());
    assert!(status.deleted.is_empty());
    assert!(!status.should_commit());
}
