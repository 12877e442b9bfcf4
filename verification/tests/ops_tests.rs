use dadmin::batch::OperationOutcome;
use dadmin::ops::checkout;
use dadmin::ops::merge_outcome;
use dadmin::ops::CheckoutError;
use dadmin::status::WorkingTreeStatus;

fn clean() -> WorkingTreeStatus {
    WorkingTreeStatus { addable: Vec::new(), deleted: Vec::new(), conflict: false }
}

#[test]
fn checkout_distinguishes_its_failures() {
    assert_eq!(checkout(false, &clean()), Err(CheckoutError::RefNotFound));

    let dirty = WorkingTreeStatus {
        addable: vec!["a.txt".to_string()],
        deleted: Vec::new(),
        conflict: false,
    };
    assert_eq!(checkout(true, &dirty), Err(CheckoutError::WouldClobber));

    let conflicted = WorkingTreeStatus { addable: Vec::new(), deleted: Vec::new(), conflict: true };
    assert_eq!(checkout(true, &conflicted), Err(CheckoutError::WouldClobber));

    // a missing ref is reported before the dirty tree
    assert_eq!(checkout(false, &dirty), Err(CheckoutError::RefNotFound));

    assert_eq!(checkout(true, &clean()), Ok(()));
}

#[test]
fn merge_distinguishes_conflicts_from_success() {
    assert!(matches!(merge_outcome(true), OperationOutcome::Conflict));
    assert!(matches!(merge_outcome(false), OperationOutcome::Success));
}
