use vstd::prelude::*;
use crate::batch::FailReason;
use crate::batch::OperationOutcome;
use crate::batch::TargetReport;
use crate::filter::Filter;
use crate::local::CommitRecord;
use crate::local::GitError;
use crate::local::LocalRepository;
use crate::local::advance_files;
use crate::local::clone_paths;
use crate::local::committed_files;
use crate::local::stage_all;
use crate::local::staged_index;
use crate::local::unstage_all;
use crate::status::FileEntry;
use crate::status::FileState;
use crate::status::WorkingTreeStatus;
use crate::status::classify;
use crate::status::has_conflict;
use crate::status::is_addable;
use crate::status::no_changes;
use crate::status::addable_paths;
use crate::status::deleted_paths;

verus! {

use vstd::string::StringExecFns;

/// Arguments of the commit subcommand: stage everything, then commit with
/// the provided message in every matching repository of the organisation.
#[derive(Debug)]
pub struct CommitArgs {
    pub organisation: String,
    pub regex: Option<Filter>,
    pub message: String,
}

/// Result of committing one repository.
#[derive(Clone, Copy, Debug, PartialEq, Eq, Structural)]
pub enum CommitResult {
    /// The repository has conflicts; they must be resolved externally first.
    Conflict,
    /// There was nothing to stage or remove.
    NoChanges,
    /// Staging and the commit object both completed.
    Success,
}

/// The result `commit` owes for a given repository state: a failure outside
/// git, a conflict, nothing to do, or success — in that order of precedence.
pub open spec fn spec_commit_result(pre: LocalRepository) -> Result<CommitResult, GitError> {
    if !pre.is_git {
        Err(GitError::NotAGitDirectory)
    } else if has_conflict(pre.files@) {
        Ok(CommitResult::Conflict)
    } else if no_changes(pre.files@) {
        Ok(CommitResult::NoChanges)
    } else {
        Ok(CommitResult::Success)
    }
}

/// How `commit` may change a repository: exactly nothing unless it succeeds,
/// and on success the staged index, one new commit object recording the
/// message and the staged tree, and a clean working tree.
pub open spec fn commit_transition(
    pre: LocalRepository,
    post: LocalRepository,
    msg: Seq<char>,
) -> bool {
    if spec_commit_result(pre) == Ok::<CommitResult, GitError>(CommitResult::Success) {
        &&& post.name == pre.name
        &&& post.is_git == pre.is_git
        &&& post.files@ == committed_files(pre.files@)
        &&& post.index.deep_view().to_set() == staged_index(pre.index.deep_view(), pre.files@)
        &&& post.history@.len() == pre.history@.len() + 1
        &&& (forall|i: int|
            0 <= i < pre.history@.len() ==> post.history@[i] == pre.history@[i])
        &&& post.history@.last().message@ == msg
        &&& post.history@.last().tree.deep_view().to_set() == staged_index(
            pre.index.deep_view(),
            pre.files@,
        )
    } else {
        post == pre
    }
}

/// Stages every addable path, removes every deleted path, and writes one
/// commit object — or reports a conflict or the absence of changes without
/// touching the repository. A directory that is not a git working directory
/// fails without stopping the batch.
pub fn commit(repo: &mut LocalRepository, msg: &str) -> (r: Result<CommitResult, GitError>)
    ensures
        r == spec_commit_result(*old(repo)),
        commit_transition(*old(repo), *final(repo), msg@),
{
    if !repo.is_git {
        return Err(GitError::NotAGitDirectory);
    }
    let status = classify(&repo.files);
    if !status.can_commit() {
        return Ok(CommitResult::Conflict);
    }
    if !status.should_commit() {
        proof {
            assert(status.addable.deep_view().len() == status.addable@.len());
            assert(status.deleted.deep_view().len() == status.deleted@.len());
        }
        return Ok(CommitResult::NoChanges);
    }
    proof {
        assert(status.addable.deep_view().len() == status.addable@.len());
        assert(status.deleted.deep_view().len() == status.deleted@.len());
    }
    let addable_list = status.addable_list();
    stage_all(&mut repo.index, addable_list);
    unstage_all(&mut repo.index, &status.deleted);
    let tree = clone_paths(&repo.index);
    proof {
        assert(tree.deep_view() =~= repo.index.deep_view());
    }
    repo.history.push(CommitRecord { message: msg.to_owned(), tree });
    let new_files = advance_files(&repo.files);
    repo.files = new_files;
    Ok(CommitResult::Success)
}

/// The batch outcome that one repository's commit result denotes.
pub open spec fn spec_commit_outcome(r: Result<CommitResult, GitError>) -> OperationOutcome {
    match r {
        Ok(CommitResult::Success) => OperationOutcome::Success,
        Ok(CommitResult::NoChanges) => OperationOutcome::NoChange,
        Ok(CommitResult::Conflict) => OperationOutcome::Conflict,
        Err(GitError::NotAGitDirectory) => OperationOutcome::Failed(FailReason::NotAGitDirectory),
    }
}

/// Maps one repository's commit result to its batch outcome.
pub fn commit_outcome(r: &Result<CommitResult, GitError>) -> (o: OperationOutcome)
    ensures
        o == spec_commit_outcome(*r),
{
    match r {
        Ok(CommitResult::Success) => OperationOutcome::Success,
        Ok(CommitResult::NoChanges) => OperationOutcome::NoChange,
        Ok(CommitResult::Conflict) => OperationOutcome::Conflict,
        Err(GitError::NotAGitDirectory) => OperationOutcome::Failed(FailReason::NotAGitDirectory),
    }
}

impl CommitArgs {
    /// Commits every target once, in order. One target's failure never stops
    /// the batch: the report holds exactly one outcome per target, each the
    /// outcome its own repository state owes, and each repository advances
    /// exactly as its own commit allows.
    pub fn run(&self, repos: Vec<LocalRepository>) -> (r: (Vec<LocalRepository>, Vec<TargetReport>))
        ensures
            r.0@.len() == repos@.len(),
            r.1@.len() == repos@.len(),
            forall|i: int|
                0 <= i < repos@.len() ==> {
                    &&& (#[trigger] r.1@[i]).name@ == repos@[i].name@
                    &&& r.1@[i].outcome == spec_commit_outcome(spec_commit_result(repos@[i]))
                    &&& commit_transition(repos@[i], r.0@[i], self.message@)
                },
    {
        let ghost orig = repos@;
        let mut remaining = repos;
        let mut done: Vec<LocalRepository> = Vec::new();
        let mut report: Vec<TargetReport> = Vec::new();
        while remaining.len() > 0
            invariant
                remaining@ =~= orig.skip(done@.len() as int),
                done@.len() == report@.len(),
                done@.len() <= orig.len(),
                forall|i: int|
                    0 <= i < done@.len() ==> {
                        &&& (#[trigger] report@[i]).name@ == orig[i].name@
                        &&& report@[i].outcome == spec_commit_outcome(spec_commit_result(orig[i]))
                        &&& commit_transition(orig[i], done@[i], self.message@)
                    },
            decreases remaining.len(),
        {
            let ghost k = done@.len() as int;
            let mut repo = remaining.remove(0);
            assert(repo == orig[k]);
            let res = commit(&mut repo, self.message.as_str());
            let outcome = commit_outcome(&res);
            report.push(TargetReport { name: repo.name.clone(), outcome });
            assert(repo.name@ == orig[k].name@);
            done.push(repo);
            assert(remaining@ =~= orig.skip(done@.len() as int));
        }
        (done, report)
    }
}

/// One target's failure is isolated. In any batch whose report and final
/// states satisfy what `run` ensures, a target `k` that cannot even be
/// opened is the one marked failed — by its own state, and untouched —
/// while every other target's outcome and next state remain exactly what
/// its own repository owes, unaffected by `k`.
pub proof fn lemma_batch_isolation(
    pres: Seq<LocalRepository>,
    posts: Seq<LocalRepository>,
    report: Seq<TargetReport>,
    msg: Seq<char>,
    k: int,
)
    requires
        posts.len() == pres.len(),
        report.len() == pres.len(),
        forall|i: int|
            0 <= i < pres.len() ==> {
                &&& (#[trigger] report[i]).outcome == spec_commit_outcome(
                    spec_commit_result(pres[i]),
                )
                &&& commit_transition(pres[i], posts[i], msg)
            },
        0 <= k < pres.len(),
        !pres[k].is_git,
    ensures
        report[k].outcome == OperationOutcome::Failed(FailReason::NotAGitDirectory),
        posts[k] == pres[k],
        forall|i: int|
            0 <= i < pres.len() && i != k ==> {
                &&& (#[trigger] report[i]).outcome == spec_commit_outcome(
                    spec_commit_result(pres[i]),
                )
                &&& commit_transition(pres[i], posts[i], msg)
            },
{
}

/// The printed text for one commit outcome.
pub open spec fn spec_commit_line_text(o: OperationOutcome) -> Seq<char> {
    match o {
        OperationOutcome::Success => "Commit success."@,
        OperationOutcome::NoChange => "There is no changes."@,
        OperationOutcome::Conflict
            => "There are conflicts. Fix conflicts and then commit the results."@,
        OperationOutcome::Failed(_) => "Failed to commit."@,
    }
}

/// One human-readable report line per target: the target's name and what
/// its commit came to.
pub fn commit_report_line(name: &str, outcome: &OperationOutcome) -> (line: String)
    ensures
        line@ == name@ + ": "@ + spec_commit_line_text(*outcome),
{
    let mut line = name.to_owned();
    line.append(": ");
    match outcome {
        OperationOutcome::Success => line.append("Commit success."),
        OperationOutcome::NoChange => line.append("There is no changes."),
        OperationOutcome::Conflict => line.append(
            "There are conflicts. Fix conflicts and then commit the results.",
        ),
        OperationOutcome::Failed(_) => line.append("Failed to commit."),
    }
    line
}

/// `should_commit` is false whenever both the addable and the deleted sets
/// of a status snapshot are empty, whatever the rest of the snapshot holds.
pub proof fn lemma_should_commit_needs_changes(status: WorkingTreeStatus)
    requires
        status.addable@.len() == 0,
        status.deleted@.len() == 0,
    ensures
        !status.spec_should_commit(),
{
}

/// A repository that cannot be committed yields `Conflict`, and the whole
/// repository — its index included — is left exactly as it was: no partial
/// staging.
pub proof fn lemma_conflict_leaves_repository(
    pre: LocalRepository,
    post: LocalRepository,
    msg: Seq<char>,
)
    requires
        pre.is_git,
        has_conflict(pre.files@),
        commit_transition(pre, post, msg),
    ensures
        spec_commit_result(pre) == Ok::<CommitResult, GitError>(CommitResult::Conflict),
        post == pre,
        post.index == pre.index,
{
}

/// Committing a repository with no changes reports `NoChanges` and creates
/// no commit object: the history, like everything else, is untouched.
pub proof fn lemma_no_changes_creates_no_commit(
    pre: LocalRepository,
    post: LocalRepository,
    msg: Seq<char>,
)
    requires
        pre.is_git,
        !has_conflict(pre.files@),
        no_changes(pre.files@),
        commit_transition(pre, post, msg),
    ensures
        spec_commit_result(pre) == Ok::<CommitResult, GitError>(CommitResult::NoChanges),
        post == pre,
        post.history@.len() == pre.history@.len(),
{
}

/// After a successful commit the working tree is clean: every kept entry is
/// unchanged, so nothing is addable, deleted or conflicted.
proof fn lemma_committed_files_clean(files: Seq<FileEntry>)
    requires
        !has_conflict(files),
    ensures
        no_changes(committed_files(files)),
        !has_conflict(committed_files(files)),
{
    broadcast use vstd::seq_lib::group_seq_lib_default;

    let kept = files.filter(|e: FileEntry| e.state != FileState::Deleted);
    let out = committed_files(files);
    assert forall|j: int| 0 <= j < out.len() implies (#[trigger] out[j]).state
        == FileState::Unchanged by {
        assert(kept[j].state != FileState::Deleted) by {
            files.lemma_filter_pred(|e: FileEntry| e.state != FileState::Deleted, j);
        }
        assert(files.contains(kept[j])) by {
            assert(kept.contains(kept[j]));
            files.lemma_filter_contains_rev(|e: FileEntry| e.state != FileState::Deleted, kept[j]);
        }
        let w = choose|w: int| 0 <= w < files.len() && files[w] == kept[j];
        assert(files[w].state != FileState::Conflicted);
        assert(out[j] == FileEntry {
            path: kept[j].path,
            state: if is_addable(kept[j].state) {
                FileState::Unchanged
            } else {
                kept[j].state
            },
        });
    }
    assert(addable_paths(out).len() == 0) by {
        out.lemma_all_neg_filter_empty(|e: FileEntry| is_addable(e.state));
    }
    assert(deleted_paths(out).len() == 0) by {
        out.lemma_all_neg_filter_empty(|e: FileEntry| e.state == FileState::Deleted);
    }
    assert(!has_conflict(out));
}

/// Re-running commit immediately after a successful commit yields
/// `NoChanges`: the first run leaves nothing to stage.
pub proof fn lemma_commit_then_no_changes(
    pre: LocalRepository,
    mid: LocalRepository,
    msg: Seq<char>,
)
    requires
        spec_commit_result(pre) == Ok::<CommitResult, GitError>(CommitResult::Success),
        commit_transition(pre, mid, msg),
    ensures
        spec_commit_result(mid) == Ok::<CommitResult, GitError>(CommitResult::NoChanges),
{
    lemma_committed_files_clean(pre.files@);
}

} // verus!
