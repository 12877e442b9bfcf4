use vstd::prelude::*;
use crate::status::FileEntry;
use crate::status::FileState;
use crate::status::addable_paths;
use crate::status::deleted_paths;
use crate::status::is_addable;

verus! {

/// Error opening a target as a repository; the batch continues past it.
#[derive(Clone, Copy, Debug, PartialEq, Eq, Structural)]
pub enum GitError {
    /// The target directory is not a git working directory.
    NotAGitDirectory,
}

/// A record of one commit object: its message and the staged paths its tree
/// captured.
#[derive(Debug)]
pub struct CommitRecord {
    pub message: String,
    pub tree: Vec<String>,
}

/// The library's model of one local repository clone: its directory name,
/// whether the directory is a git working directory, the working-tree
/// entries, the staged paths of the index, and the commit history.
#[derive(Debug)]
pub struct LocalRepository {
    pub name: String,
    pub is_git: bool,
    pub files: Vec<FileEntry>,
    pub index: Vec<String>,
    pub history: Vec<CommitRecord>,
}

/// The index contents after staging every addable path and unstaging every
/// deleted path of the given working tree.
pub open spec fn staged_index(index: Seq<Seq<char>>, files: Seq<FileEntry>) -> Set<Seq<char>> {
    index.to_set().union(addable_paths(files).to_set()).difference(
        deleted_paths(files).to_set(),
    )
}

/// The working tree after a successful commit: removed paths drop out and
/// staged modifications become clean.
pub open spec fn committed_files(files: Seq<FileEntry>) -> Seq<FileEntry> {
    files.filter(|e: FileEntry| e.state != FileState::Deleted).map_values(
        |e: FileEntry|
            FileEntry {
                path: e.path,
                state: if is_addable(e.state) {
                    FileState::Unchanged
                } else {
                    e.state
                },
            },
    )
}

/// True when some staged path equals `p`.
fn index_contains(index: &Vec<String>, p: &String) -> (r: bool)
    ensures
        r == index.deep_view().contains(p@),
{
    let mut i: usize = 0;
    while i < index.len()
        invariant
            i <= index.len(),
            forall|k: int| 0 <= k < i ==> index.deep_view()[k] != p@,
        decreases index.len() - i,
    {
        if index[i].eq(p) {
            assert(index.deep_view()[i as int] == p@);
            return true;
        }
        i += 1;
    }
    assert(forall|k: int| 0 <= k < index.deep_view().len() ==> index.deep_view()[k] != p@);
    false
}

/// Stages one path, keeping staged paths free of duplicates of it.
fn index_add(index: &mut Vec<String>, p: &String)
    ensures
        final(index).deep_view().to_set() == old(index).deep_view().to_set().insert(p@),
{
    broadcast use vstd::seq_lib::group_seq_lib_default;
    broadcast use vstd::prelude::Seq::lemma_push_to_set_commute;
    broadcast use vstd::set::group_set_axioms;

    let ghost pre = index.deep_view();
    if !index_contains(index, p) {
        index.push(p.clone());
        assert(index.deep_view() =~= pre.push(p@));
        assert(index.deep_view().to_set() =~= pre.to_set().insert(p@));
    } else {
        assert(pre.to_set() =~= pre.to_set().insert(p@));
    }
}

/// Unstages one path: removes every staged path equal to `p`.
fn index_remove(index: &mut Vec<String>, p: &String)
    ensures
        final(index).deep_view().to_set() == old(index).deep_view().to_set().remove(p@),
{
    broadcast use vstd::seq_lib::group_seq_lib_default;
    broadcast use vstd::prelude::Seq::lemma_push_to_set_commute;
    broadcast use vstd::set::group_set_axioms;

    let ghost pre = index.deep_view();
    let mut out: Vec<String> = Vec::new();
    let mut i: usize = 0;
    while i < index.len()
        invariant
            i <= index.len(),
            index.deep_view() == pre,
            out.deep_view().to_set() == pre.take(i as int).to_set().remove(p@),
        decreases index.len() - i,
    {
        let ghost out_pre = out.deep_view();
        let keep = !index[i].eq(p);
        if keep {
            out.push(index[i].clone());
        }
        proof {
            assert(pre.take(i + 1) =~= pre.take(i as int).push(pre[i as int]));
            pre.take(i as int).lemma_push_to_set_commute(pre[i as int]);
            if keep {
                assert(out.deep_view() =~= out_pre.push(pre[i as int]));
                out_pre.lemma_push_to_set_commute(pre[i as int]);
                assert(out.deep_view().to_set() =~= pre.take(i + 1).to_set().remove(p@));
            } else {
                assert(out.deep_view().to_set() =~= pre.take(i + 1).to_set().remove(p@));
            }
        }
        i += 1;
    }
    assert(pre.take(pre.len() as int) =~= pre);
    *index = out;
}

/// Copies a list of paths; the copy denotes the same sequence.
pub fn clone_paths(v: &Vec<String>) -> (r: Vec<String>)
    ensures
        r@ == v@,
{
    let mut r: Vec<String> = Vec::new();
    let mut i: usize = 0;
    while i < v.len()
        invariant
            i <= v.len(),
            r@ == v@.take(i as int),
        decreases v.len() - i,
    {
        r.push(v[i].clone());
        assert(r@ =~= v@.take(i + 1));
        i += 1;
    }
    assert(v@.take(v@.len() as int) =~= v@);
    r
}

/// Stages every path of `paths` into the index.
pub(crate) fn stage_all(index: &mut Vec<String>, paths: &Vec<String>)
    ensures
        final(index).deep_view().to_set() == old(index).deep_view().to_set().union(
            paths.deep_view().to_set(),
        ),
{
    broadcast use vstd::seq_lib::group_seq_lib_default;
    broadcast use vstd::prelude::Seq::lemma_push_to_set_commute;
    broadcast use vstd::set::group_set_axioms;

    let ghost pre = index.deep_view();
    let ghost ps = paths.deep_view();
    let mut i: usize = 0;
    while i < paths.len()
        invariant
            i <= paths.len(),
            paths.deep_view() == ps,
            index.deep_view().to_set() == pre.to_set().union(ps.take(i as int).to_set()),
        decreases paths.len() - i,
    {
        let ghost cur = index.deep_view().to_set();
        index_add(index, &paths[i]);
        proof {
            assert(ps.take(i + 1) =~= ps.take(i as int).push(ps[i as int]));
            ps.take(i as int).lemma_push_to_set_commute(ps[i as int]);
            assert(cur.insert(ps[i as int]) =~= pre.to_set().union(ps.take(i + 1).to_set()));
        }
        i += 1;
    }
    assert(ps.take(ps.len() as int) =~= ps);
}

/// Unstages every path of `paths` from the index.
pub(crate) fn unstage_all(index: &mut Vec<String>, paths: &Vec<String>)
    ensures
        final(index).deep_view().to_set() == old(index).deep_view().to_set().difference(
            paths.deep_view().to_set(),
        ),
{
    broadcast use vstd::seq_lib::group_seq_lib_default;
    broadcast use vstd::prelude::Seq::lemma_push_to_set_commute;
    broadcast use vstd::set::group_set_axioms;

    let ghost pre = index.deep_view();
    let ghost ps = paths.deep_view();
    let mut i: usize = 0;
    while i < paths.len()
        invariant
            i <= paths.len(),
            paths.deep_view() == ps,
            index.deep_view().to_set() == pre.to_set().difference(ps.take(i as int).to_set()),
        decreases paths.len() - i,
    {
        let ghost cur = index.deep_view().to_set();
        index_remove(index, &paths[i]);
        proof {
            assert(ps.take(i + 1) =~= ps.take(i as int).push(ps[i as int]));
            ps.take(i as int).lemma_push_to_set_commute(ps[i as int]);
            assert(cur.remove(ps[i as int]) =~= pre.to_set().difference(ps.take(i + 1).to_set()));
        }
        i += 1;
    }
    assert(ps.take(ps.len() as int) =~= ps);
}

/// Rebuilds the working tree as it stands after a successful commit.
pub(crate) fn advance_files(files: &Vec<FileEntry>) -> (r: Vec<FileEntry>)
    ensures
        r@ == committed_files(files@),
{
    broadcast use vstd::seq_lib::group_seq_lib_default;
    broadcast use vstd::prelude::Seq::lemma_push_to_set_commute;
    broadcast use vstd::set::group_set_axioms;

    let mut r: Vec<FileEntry> = Vec::new();
    let mut i: usize = 0;
    while i < files.len()
        invariant
            i <= files.len(),
            r@ == committed_files(files@.take(i as int)),
        decreases files.len() - i,
    {
        let ghost pre = files@.take(i as int);
        let ghost r_pre = r@;
        match files[i].state {
            FileState::Modified | FileState::Untracked => {
                r.push(FileEntry { path: files[i].path.clone(), state: FileState::Unchanged });
            },
            FileState::Deleted => {},
            FileState::Unchanged | FileState::Conflicted => {
                r.push(FileEntry { path: files[i].path.clone(), state: files[i].state });
            },
        }
        proof {
            let e = files@[i as int];
            assert(files@.take(i + 1) =~= pre.push(e));
            pre.lemma_filter_push(e, |x: FileEntry| x.state != FileState::Deleted);
            if e.state == FileState::Deleted {
                assert(committed_files(pre.push(e)) =~= committed_files(pre));
            } else {
                let t = FileEntry {
                    path: e.path,
                    state: if is_addable(e.state) {
                        FileState::Unchanged
                    } else {
                        e.state
                    },
                };
                assert(committed_files(pre.push(e)) =~= committed_files(pre).push(t));
                assert(r@ =~= r_pre.push(t));
            }
        }
        i += 1;
    }
    assert(files@.take(files@.len() as int) =~= files@);
    r
}

} // verus!
