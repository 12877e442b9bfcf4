use vstd::prelude::*;
use crate::batch::OperationOutcome;
use crate::status::WorkingTreeStatus;

verus! {

/// Why a checkout is refused. The two causes are reported distinctly: a
/// ref that does not exist is not the same fault as a dirty working tree
/// that the checkout would clobber.
#[derive(Clone, Copy, Debug, PartialEq, Eq, Structural)]
pub enum CheckoutError {
    /// The target ref does not exist in the repository.
    RefNotFound,
    /// The working tree holds changes the checkout would overwrite.
    WouldClobber,
}

/// Whether a status snapshot holds anything a checkout could clobber.
pub open spec fn spec_dirty(status: WorkingTreeStatus) -> bool {
    status.conflict || status.addable@.len() > 0 || status.deleted@.len() > 0
}

/// Decides one checkout: it proceeds only when the target ref exists and
/// the working tree is clean, and otherwise fails with the distinct cause
/// — the missing ref is checked first, and nothing is mutated on failure.
pub fn checkout(ref_exists: bool, status: &WorkingTreeStatus) -> (r: Result<(), CheckoutError>)
    ensures
        !ref_exists ==> r == Err::<(), CheckoutError>(CheckoutError::RefNotFound),
        ref_exists && spec_dirty(*status) ==> r == Err::<(), CheckoutError>(
            CheckoutError::WouldClobber,
        ),
        ref_exists && !spec_dirty(*status) ==> r == Ok::<(), CheckoutError>(()),
{
    if !ref_exists {
        Err(CheckoutError::RefNotFound)
    } else if status.conflict || status.addable.len() > 0 || status.deleted.len() > 0 {
        Err(CheckoutError::WouldClobber)
    } else {
        Ok(())
    }
}

/// Classifies one merge: a merge that left conflict markers is the
/// conflict outcome — after which nothing further may be mutated — and
/// only a conflict-free merge is a success.
pub fn merge_outcome(left_conflict_markers: bool) -> (o: OperationOutcome)
    ensures
        o == if left_conflict_markers {
            OperationOutcome::Conflict
        } else {
            OperationOutcome::Success
        },
{
    if left_conflict_markers {
        OperationOutcome::Conflict
    } else {
        OperationOutcome::Success
    }
}

} // verus!
