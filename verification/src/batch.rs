use vstd::prelude::*;
use crate::github::models::RemoteApiError;

verus! {

/// Why one target's operation failed. The batch continues past it.
#[derive(Clone, Copy, Debug, PartialEq, Eq, Structural)]
pub enum FailReason {
    /// The target could not be opened as a git working directory.
    NotAGitDirectory,
    /// A GitHub REST call reported a typed error.
    Remote(RemoteApiError),
    /// A local or network fault outside the library's model.
    Transport,
}

/// Terminal outcome of one operation on one target, produced exactly once
/// per target per invocation.
#[derive(Clone, Copy, Debug, PartialEq, Eq, Structural)]
pub enum OperationOutcome {
    /// The intended mutation fully completed.
    Success,
    /// There was nothing to do; the target is untouched.
    NoChange,
    /// The target is conflicted and must be resolved externally.
    Conflict,
    /// The operation failed; the target is untouched by this tool.
    Failed(FailReason),
}

/// One line of the batch report: a target and its outcome.
#[derive(Debug)]
pub struct TargetReport {
    pub name: String,
    pub outcome: OperationOutcome,
}

/// Some target of the finished batch failed.
pub open spec fn spec_any_failed(report: Seq<TargetReport>) -> bool {
    exists|i: int| 0 <= i < report.len() && (#[trigger] report[i].outcome) is Failed
}

/// Exit status for a finished batch: nonzero exactly when a target failed.
pub fn exit_code(report: &Vec<TargetReport>) -> (c: i32)
    ensures
        c == 0 <==> !spec_any_failed(report@),
        c == 0 || c == 1,
{
    let mut i: usize = 0;
    while i < report.len()
        invariant
            i <= report.len(),
            forall|k: int| 0 <= k < i ==> !((#[trigger] report@[k].outcome) is Failed),
        decreases report.len() - i,
    {
        if matches!(report[i].outcome, OperationOutcome::Failed(_)) {
            assert(report@[i as int].outcome is Failed);
            return 1;
        }
        i += 1;
    }
    0
}

} // verus!
