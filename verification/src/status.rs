use vstd::prelude::*;

verus! {

/// Classification of one working-tree path relative to the index and HEAD.
#[derive(Clone, Copy, Debug, PartialEq, Eq, Structural)]
pub enum FileState {
    /// Tracked and identical to the index.
    Unchanged,
    /// Tracked, with working-tree content that differs from the index.
    Modified,
    /// Present in the working tree but not yet tracked.
    Untracked,
    /// Present in the index or HEAD but absent from the working tree.
    Deleted,
    /// In an unmerged, conflicted state.
    Conflicted,
}

/// One path of a repository's working tree together with its state.
#[derive(Debug)]
pub struct FileEntry {
    pub path: String,
    pub state: FileState,
}

/// The states that make a path eligible for staging.
pub open spec fn is_addable(s: FileState) -> bool {
    s == FileState::Modified || s == FileState::Untracked
}

/// The paths of the entries eligible for staging, in entry order.
pub open spec fn addable_paths(files: Seq<FileEntry>) -> Seq<Seq<char>> {
    files.filter(|e: FileEntry| is_addable(e.state)).map_values(|e: FileEntry| e.path@)
}

/// The paths removed from the working tree, in entry order.
pub open spec fn deleted_paths(files: Seq<FileEntry>) -> Seq<Seq<char>> {
    files.filter(|e: FileEntry| e.state == FileState::Deleted).map_values(|e: FileEntry| e.path@)
}

/// Nothing to commit: no stageable and no removed paths.
pub open spec fn no_changes(files: Seq<FileEntry>) -> bool {
    addable_paths(files).len() == 0 && deleted_paths(files).len() == 0
}

/// Some entry is in a conflicted (unmerged) state.
pub open spec fn has_conflict(files: Seq<FileEntry>) -> bool {
    exists|i: int| 0 <= i < files.len() && files[i].state == FileState::Conflicted
}

/// Per-repository snapshot of the working tree against the index: the
/// stageable paths, the removed paths, and whether any entry is conflicted.
#[derive(Debug)]
pub struct WorkingTreeStatus {
    pub addable: Vec<String>,
    pub deleted: Vec<String>,
    pub conflict: bool,
}

impl WorkingTreeStatus {
    /// A conflicted repository must not be mutated until resolved externally.
    pub open spec fn spec_can_commit(&self) -> bool {
        !self.conflict
    }

    /// Staging is warranted only without conflicts and with work to stage.
    pub open spec fn spec_should_commit(&self) -> bool {
        self.spec_can_commit() && (self.addable@.len() > 0 || self.deleted@.len() > 0)
    }

    /// The sole gate against mutating a conflicted repository.
    pub fn can_commit(&self) -> (r: bool)
        ensures
            r == self.spec_can_commit(),
    {
        !self.conflict
    }

    /// False whenever both `addable` and `deleted` are empty, or on conflict.
    pub fn should_commit(&self) -> (r: bool)
        ensures
            r == self.spec_should_commit(),
    {
        !self.conflict && (self.addable.len() > 0 || self.deleted.len() > 0)
    }

    /// The stageable paths of this snapshot.
    pub fn addable_list(&self) -> (r: &Vec<String>)
        ensures
            r@ == self.addable@,
    {
        &self.addable
    }
}

/// Walks the entries of a working tree and produces its status snapshot.
pub fn classify(files: &Vec<FileEntry>) -> (r: WorkingTreeStatus)
    ensures
        r.addable.deep_view() == addable_paths(files@),
        r.deleted.deep_view() == deleted_paths(files@),
        r.conflict == has_conflict(files@),
{
    broadcast use vstd::seq_lib::group_seq_lib_default;

    let mut addable: Vec<String> = Vec::new();
    let mut deleted: Vec<String> = Vec::new();
    let mut conflict = false;
    let mut i: usize = 0;
    while i < files.len()
        invariant
            i <= files.len(),
            addable.deep_view() == addable_paths(files@.take(i as int)),
            deleted.deep_view() == deleted_paths(files@.take(i as int)),
            conflict == has_conflict(files@.take(i as int)),
        decreases files.len() - i,
    {
        let ghost pre = files@.take(i as int);
        let ghost addable_pre = addable.deep_view();
        let ghost deleted_pre = deleted.deep_view();
        match files[i].state {
            FileState::Modified | FileState::Untracked => {
                addable.push(files[i].path.clone());
                assert(addable.deep_view() =~= addable_pre.push(files@[i as int].path@));
            },
            FileState::Deleted => {
                deleted.push(files[i].path.clone());
                assert(deleted.deep_view() =~= deleted_pre.push(files@[i as int].path@));
            },
            FileState::Conflicted => {
                conflict = true;
            },
            FileState::Unchanged => {},
        }
        proof {
            assert(files@.take(i + 1) =~= pre.push(files@[i as int]));
            lemma_classify_step(pre, files@[i as int]);
            if files@[i as int].state == FileState::Conflicted {
                assert(files@.take(i + 1)[i as int].state == FileState::Conflicted);
                assert(has_conflict(files@.take(i + 1)));
            } else {
                assert(has_conflict(files@.take(i + 1)) == has_conflict(pre)) by {
                    if has_conflict(files@.take(i + 1)) {
                        let j = choose|j: int|
                            0 <= j < files@.take(i + 1).len()
                                && (#[trigger] files@.take(i + 1)[j]).state == FileState::Conflicted;
                        assert(0 <= j < pre.len() && pre[j].state == FileState::Conflicted);
                    }
                }
            }
        }
        i += 1;
    }
    assert(files@.take(files@.len() as int) =~= files@);
    WorkingTreeStatus { addable, deleted, conflict }
}

/// One step of the classification loop: extending the scanned prefix by one
/// entry extends the addable and deleted path sequences accordingly.
proof fn lemma_classify_step(pre: Seq<FileEntry>, e: FileEntry)
    ensures
        is_addable(e.state) ==> addable_paths(pre.push(e)) == addable_paths(pre).push(e.path@),
        !is_addable(e.state) ==> addable_paths(pre.push(e)) == addable_paths(pre),
        e.state == FileState::Deleted ==> deleted_paths(pre.push(e)) == deleted_paths(pre).push(
            e.path@,
        ),
        e.state != FileState::Deleted ==> deleted_paths(pre.push(e)) == deleted_paths(pre),
{
    broadcast use vstd::seq_lib::group_seq_lib_default;

    pre.lemma_filter_push(e, |x: FileEntry| is_addable(x.state));
    pre.lemma_filter_push(e, |x: FileEntry| x.state == FileState::Deleted);
    if is_addable(e.state) {
        assert(addable_paths(pre.push(e)) =~= addable_paths(pre).push(e.path@));
    } else {
        assert(addable_paths(pre.push(e)) =~= addable_paths(pre));
    }
    if e.state == FileState::Deleted {
        assert(deleted_paths(pre.push(e)) =~= deleted_paths(pre).push(e.path@));
    } else {
        assert(deleted_paths(pre.push(e)) =~= deleted_paths(pre));
    }
}

} // verus!
