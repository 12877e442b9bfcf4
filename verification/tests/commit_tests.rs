use dadmin::batch::FailReason;
use dadmin::batch::OperationOutcome;
use dadmin::batch::TargetReport;
use dadmin::batch::exit_code;
use dadmin::commands::commit::CommitArgs;
use dadmin::commands::commit::CommitResult;
use dadmin::commands::commit::commit;
use dadmin::commands::commit::commit_report_line;
use dadmin::local::GitError;
use dadmin::local::LocalRepository;
use dadmin::status::FileEntry;
use dadmin::status::FileState;

fn fe(path: &str, state: FileState) -> FileEntry {
    FileEntry { path: path.to_string(), state }
}

fn repo(name: &str, is_git: bool, files: Vec<FileEntry>) -> LocalRepository {
    LocalRepository {
        name: name.to_string(),
        is_git,
        files,
        index: Vec::new(),
        history: Vec::new(),
    }
}

#[test]
fn commit_rejects_non_git_directory() {
    let mut r = repo("notes", false, vec![fe("a.txt", FileState::Modified)]);
    let res = commit(&mut r, "fix");
    assert!(matches!(res, Err(GitError::NotAGitDirectory)));
    assert!(r.history.is_empty());
    assert!(r.index.is_empty());
}

#[test]
fn commit_conflict_leaves_index_untouched() {
    let mut r = repo(
        "alpha",
        true,
        vec![fe("a.txt", FileState::Modified), fe("b.txt", FileState::Conflicted)],
    );
    r.index = vec!["old.txt".to_string()];
    let res = commit(&mut r, "fix");
    assert!(matches!(res, Ok(CommitResult::Conflict)));
    assert_eq!(r.index, vec!["old.txt".to_string()]);
    assert!(r.history.is_empty());
    assert_eq!(r.files.len(), 2);
}

#[test]
fn commit_without_changes_creates_no_commit() {
    let mut r = repo("alpha", true, vec![fe("a.txt", FileState::Unchanged)]);
    let res = commit(&mut r, "fix");
    assert!(matches!(res, Ok(CommitResult::NoChanges)));
    assert!(r.history.is_empty());
}

#[test]
fn commit_success_then_rerun_is_nochange() {
    let mut r = repo("alpha", true, vec![fe("src/lib.rs", FileState::Modified)]);
    let res = commit(&mut r, "fix");
    assert!(matches!(res, Ok(CommitResult::Success)));
    assert_eq!(r.history.len(), 1);
    assert_eq!(r.history[0].message, "fix".to_string());
    assert_eq!(r.history[0].tree, vec!["src/lib.rs".to_string()]);
    assert_eq!(r.index, vec!["src/lib.rs".to_string()]);
    assert!(matches!(r.files[0].state, FileState::Unchanged));

    let res2 = commit(&mut r, "fix");
    assert!(matches!(res2, Ok(CommitResult::NoChanges)));
    assert_eq!(r.history.len(), 1);
}

#[test]
fn commit_stages_and_removes() {
    let mut r = repo(
        "alpha",
        true,
        vec![fe("new.txt", FileState::Untracked), fe("gone.txt", FileState::Deleted)],
    );
    r.index = vec!["gone.txt".to_string()];
    let res = commit(&mut r, "update");
    assert!(matches!(res, Ok(CommitResult::Success)));
    assert_eq!(r.index, vec!["new.txt".to_string()]);
    assert_eq!(r.files.len(), 1);
    assert_eq!(r.files[0].path, "new.txt".to_string());
}

#[test]
fn batch_isolates_one_failure() {
    let repos = vec![
        repo("alpha", true, vec![fe("a.txt", FileState::Modified)]),
        repo("broken", false, Vec::new()),
        repo("gamma", true, vec![fe("g.txt", FileState::Conflicted)]),
    ];
    let args = CommitArgs {
        organisation: "divvun".to_string(),
        regex: None,
        message: "fix".to_string(),
    };
    let (after, report) = args.run(repos);
    assert_eq!(after.len(), 3);
    assert_eq!(report.len(), 3);
    assert_eq!(report[0].name, "alpha".to_string());
    assert!(matches!(report[0].outcome, OperationOutcome::Success));
    assert_eq!(report[1].name, "broken".to_string());
    assert!(matches!(
        report[1].outcome,
        OperationOutcome::Failed(FailReason::NotAGitDirectory)
    ));
    assert_eq!(report[2].name, "gamma".to_string());
    assert!(matches!(report[2].outcome, OperationOutcome::Conflict));
    assert_eq!(after[0].history.len(), 1);
    assert_eq!(after[2].history.len(), 0);
}

#[test]
fn exit_code_reflects_failures() {
    let ok = vec![
        TargetReport { name: "a".to_string(), outcome: OperationOutcome::Success },
        TargetReport { name: "b".to_string(), outcome: OperationOutcome::NoChange },
        TargetReport { name: "c".to_string(), outcome: OperationOutcome::Conflict },
    ];
    assert_eq!(exit_code(&ok), 0);
    let bad = vec![
        TargetReport { name: "a".to_string(), outcome: OperationOutcome::Success },
        TargetReport {
            name: "b".to_string(),
            outcome: OperationOutcome::Failed(FailReason::Transport),
        },
    ];
    assert_eq!(exit_code(&bad), 1);
}

#[test]
fn report_lines_match_outcomes() {
    assert_eq!(
        commit_report_line("alpha", &OperationOutcome::Success),
        "alpha: Commit success.".to_string()
    );
    assert_eq!(
        commit_report_line("alpha", &OperationOutcome::NoChange),
        "alpha: There is no changes.".to_string()
    );
    assert_eq!(
        commit_report_line("alpha", &OperationOutcome::Conflict),
        "alpha: There are conflicts. Fix conflicts and then commit the results.".to_string()
    );
    assert_eq!(
        commit_report_line("alpha", &OperationOutcome::Failed(FailReason::NotAGitDirectory)),
        "alpha: Failed to commit.".to_string()
    );
}
