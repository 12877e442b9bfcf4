use vstd::prelude::*;
use crate::filter::Filter;
use crate::filter::opt_matches;

verus! {

use vstd::string::StrSliceExecFns;
use vstd::relations::sorted_by;
use vstd::relations::total_ordering;
use vstd::seq_lib::lemma_sorted_unique;

/// One directory entry under the organisation root, as the filesystem
/// reports it: its name and whether it is a git working directory.
#[derive(Debug)]
pub struct DirEntry {
    pub name: String,
    pub is_git: bool,
}

/// One local repository selected for a batch, identified by its directory
/// name under `root/organisation`.
#[derive(Debug)]
pub struct RepositoryTarget {
    pub name: String,
}

/// Lexicographic order on names, by unicode code point.
pub open spec fn lex_le(a: Seq<char>, b: Seq<char>) -> bool
    decreases a.len(),
{
    if a.len() == 0 {
        true
    } else if b.len() == 0 {
        false
    } else if (a[0] as u32) < (b[0] as u32) {
        true
    } else if (b[0] as u32) < (a[0] as u32) {
        false
    } else {
        lex_le(a.skip(1), b.skip(1))
    }
}

/// The lexicographic order as a relation value, for sortedness statements.
pub open spec fn lex_leq() -> spec_fn(Seq<char>, Seq<char>) -> bool {
    |a: Seq<char>, b: Seq<char>| lex_le(a, b)
}

proof fn lemma_char_eq(x: char, y: char)
    requires
        x as u32 == y as u32,
    ensures
        x == y,
{
}

proof fn lemma_lex_le_reflexive(a: Seq<char>)
    ensures
        lex_le(a, a),
    decreases a.len(),
{
    if a.len() > 0 {
        lemma_lex_le_reflexive(a.skip(1));
    }
}

proof fn lemma_lex_le_connected(a: Seq<char>, b: Seq<char>)
    ensures
        lex_le(a, b) || lex_le(b, a),
    decreases a.len(),
{
    let heads_tie = a.len() > 0 && b.len() > 0 && !((a[0] as u32) < (b[0] as u32)) && !((
    b[0] as u32) < (a[0] as u32));
    if heads_tie {
        lemma_lex_le_connected(a.skip(1), b.skip(1));
    }
}

proof fn lemma_lex_le_antisymmetric(a: Seq<char>, b: Seq<char>)
    requires
        lex_le(a, b),
        lex_le(b, a),
    ensures
        a == b,
    decreases a.len(),
{
    broadcast use vstd::seq_lib::group_seq_properties;

    if a.len() == 0 && b.len() == 0 {
        assert(a =~= b);
    } else if a.len() > 0 && b.len() > 0 {
        lemma_char_eq(a[0], b[0]);
        lemma_lex_le_antisymmetric(a.skip(1), b.skip(1));
        assert(a.skip(1).len() == a.len() - 1);
        assert(b.skip(1).len() == b.len() - 1);
        assert(a.len() == b.len());
        assert(a =~= b) by {
            assert(forall|i: int| 1 <= i < a.len() ==> a[i] == #[trigger] a.skip(1)[i - 1]);
            assert(forall|i: int| 1 <= i < b.len() ==> b[i] == #[trigger] b.skip(1)[i - 1]);
        }
    }
}

proof fn lemma_lex_le_transitive(a: Seq<char>, b: Seq<char>, c: Seq<char>)
    requires
        lex_le(a, b),
        lex_le(b, c),
    ensures
        lex_le(a, c),
    decreases a.len(),
{
    broadcast use vstd::seq_lib::group_seq_properties;

    if a.len() > 0 && b.len() > 0 && c.len() > 0 {
        let first_tie = !((a[0] as u32) < (b[0] as u32)) && !((b[0] as u32) < (a[0] as u32));
        let second_tie = !((b[0] as u32) < (c[0] as u32)) && !((c[0] as u32) < (b[0] as u32));
        if first_tie && second_tie {
            lemma_lex_le_transitive(a.skip(1), b.skip(1), c.skip(1));
        }
    }
}

/// The lexicographic order is a total order, so a sorted sequence of names
/// is the one canonical arrangement of its contents.
pub proof fn lemma_lex_total_ordering()
    ensures
        total_ordering(lex_leq()),
{
    let leq = lex_leq();
    assert forall|a: Seq<char>| #[trigger] leq(a, a) by {
        lemma_lex_le_reflexive(a);
    }
    assert forall|a: Seq<char>, b: Seq<char>| #[trigger] leq(a, b) && #[trigger] leq(b, a)
        implies a == b by {
        lemma_lex_le_antisymmetric(a, b);
    }
    assert forall|a: Seq<char>, b: Seq<char>, c: Seq<char>|
        #[trigger] leq(a, b) && #[trigger] leq(b, c) implies leq(a, c) by {
        lemma_lex_le_transitive(a, b, c);
    }
    assert forall|a: Seq<char>, b: Seq<char>| #[trigger] leq(a, b) || #[trigger] leq(b, a) by {
        lemma_lex_le_connected(a, b);
    }
}

/// Compares two names in the lexicographic order.
pub fn lex_le_exec(a: &str, b: &str) -> (r: bool)
    ensures
        r == lex_le(a@, b@),
{
    let alen = a.unicode_len();
    let blen = b.unicode_len();
    let mut i: usize = 0;
    proof {
        assert(a@.skip(0) =~= a@);
        assert(b@.skip(0) =~= b@);
    }
    loop
        invariant
            i <= alen,
            i <= blen,
            alen == a@.len(),
            blen == b@.len(),
            lex_le(a@, b@) == lex_le(a@.skip(i as int), b@.skip(i as int)),
        decreases alen - i,
    {
        if i == alen {
            return true;
        }
        if i == blen {
            return false;
        }
        let ca = a.get_char(i);
        let cb = b.get_char(i);
        proof {
            assert(a@.skip(i as int)[0] == a@[i as int]);
            assert(b@.skip(i as int)[0] == b@[i as int]);
            assert(a@.skip(i as int).skip(1) =~= a@.skip(i + 1));
            assert(b@.skip(i as int).skip(1) =~= b@.skip(i + 1));
        }
        if (ca as u32) < (cb as u32) {
            return true;
        }
        if (cb as u32) < (ca as u32) {
            return false;
        }
        i += 1;
    }
}

/// The names of a target sequence, in order.
pub open spec fn target_names(ts: Seq<RepositoryTarget>) -> Seq<Seq<char>> {
    ts.map_values(|t: RepositoryTarget| t.name@)
}

/// Whether one directory entry belongs to the batch: a git working
/// directory whose name the filter accepts.
pub open spec fn keeps(e: DirEntry, filter: Option<Filter>) -> bool {
    e.is_git && opt_matches(filter, e.name@)
}

/// The names of the entries that belong to the batch, in scan order.
pub open spec fn kept_names(entries: Seq<DirEntry>, filter: Option<Filter>) -> Seq<Seq<char>> {
    entries.filter(|e: DirEntry| keeps(e, filter)).map_values(|e: DirEntry| e.name@)
}

/// The position before the first element ordered after `name`.
fn lower_bound(v: &Vec<RepositoryTarget>, name: &String) -> (p: usize)
    ensures
        p <= v@.len(),
        forall|k: int| 0 <= k < p ==> lex_le(#[trigger] target_names(v@)[k], name@),
        p < v@.len() ==> !lex_le(target_names(v@)[p as int], name@),
{
    let mut p: usize = 0;
    while p < v.len()
        invariant
            p <= v@.len(),
            forall|k: int| 0 <= k < p ==> lex_le(#[trigger] target_names(v@)[k], name@),
        decreases v@.len() - p,
    {
        if !lex_le_exec(v[p].name.as_str(), name.as_str()) {
            return p;
        }
        p += 1;
    }
    p
}

/// Inserts a target into a name-sorted sequence, keeping it sorted.
fn insert_sorted(v: &mut Vec<RepositoryTarget>, t: RepositoryTarget)
    requires
        sorted_by(target_names(old(v)@), lex_leq()),
    ensures
        sorted_by(target_names(final(v)@), lex_leq()),
        target_names(final(v)@).to_multiset() == target_names(old(v)@).to_multiset().insert(
            t.name@,
        ),
        final(v)@.len() == old(v)@.len() + 1,
{
    broadcast use vstd::seq_lib::group_to_multiset_ensures;

    let ghost names0 = target_names(v@);
    let p = lower_bound(v, &t.name);
    proof {
        if (p as int) < names0.len() {
            lemma_lex_le_connected(names0[p as int], t.name@);
        }
    }
    let ghost tname = t.name@;
    v.insert(p, t);
    proof {
        let names1 = target_names(v@);
        assert(names1 =~= names0.insert(p as int, tname));
        assert forall|i: int, j: int| 0 <= i < j < names1.len() implies (lex_leq())(
            names1[i],
            names1[j],
        ) by {
            let leq = lex_leq();
            if i < p && j < p {
                assert(leq(names0[i], names0[j]));
            } else if i < p && j == p {
                assert(leq(names0[i], tname));
            } else if i < p && j > p {
                assert(leq(names0[i], names0[j - 1]));
            } else if i == p {
                // everything at or after the insertion point is ordered
                // after the new name
                if j == p + 1 {
                    assert(leq(tname, names0[p as int]));
                    assert(names1[j] == names0[p as int]);
                } else {
                    assert(leq(tname, names0[p as int]));
                    assert(leq(names0[p as int], names0[j - 1]));
                    lemma_lex_le_transitive(tname, names0[p as int], names0[j - 1]);
                }
            } else {
                assert(leq(names0[i - 1], names0[j - 1]));
            }
        }
        assert(names1.to_multiset() == names0.to_multiset().insert(tname));
    }
}

/// Scans the reported entries of `root/organisation`, keeps the git working
/// directories whose name the filter accepts, and returns one target per
/// kept entry, ordered lexicographically by name. A missing root hands in
/// no entries and yields no targets, not an error.
pub fn enumerate(entries: Vec<DirEntry>, filter: &Option<Filter>) -> (r: Vec<RepositoryTarget>)
    ensures
        sorted_by(target_names(r@), lex_leq()),
        target_names(r@).to_multiset() == kept_names(entries@, *filter).to_multiset(),
{
    broadcast use vstd::seq_lib::group_seq_lib_default;
    broadcast use vstd::seq_lib::group_to_multiset_ensures;

    let ghost orig = entries@;
    let mut remaining = entries;
    let mut out: Vec<RepositoryTarget> = Vec::new();
    let ghost mut processed: int = 0;
    while remaining.len() > 0
        invariant
            0 <= processed <= orig.len(),
            remaining@ =~= orig.skip(processed),
            sorted_by(target_names(out@), lex_leq()),
            target_names(out@).to_multiset() == kept_names(orig.take(processed), *filter)
                .to_multiset(),
        decreases remaining@.len(),
    {
        let e = remaining.remove(0);
        assert(e == orig[processed]);
        let keep = if e.is_git {
            match filter {
                Option::None => true,
                Option::Some(f) => f.matches(e.name.as_str()),
            }
        } else {
            false
        };
        assert(keep == keeps(orig[processed], *filter));
        let ghost pre = orig.take(processed);
        let ghost ename = e.name@;
        if keep {
            insert_sorted(&mut out, RepositoryTarget { name: e.name });
        }
        proof {
            assert(orig.take(processed + 1) =~= pre.push(orig[processed]));
            pre.lemma_filter_push(orig[processed], |x: DirEntry| keeps(x, *filter));
            if keep {
                assert(kept_names(orig.take(processed + 1), *filter) =~= kept_names(
                    pre,
                    *filter,
                ).push(ename));
                vstd::seq_lib::to_multiset_build(kept_names(pre, *filter), ename);
            } else {
                assert(kept_names(orig.take(processed + 1), *filter) =~= kept_names(pre, *filter));
            }
            processed = processed + 1;
            assert(remaining@ =~= orig.skip(processed));
        }
    }
    assert(orig.take(processed) =~= orig);
    out
}

/// Enumeration order is stable: two scans of an unchanged filesystem may
/// report the entries in any order, yet the two enumerated target name
/// sequences are identical.
pub proof fn lemma_enumeration_stable(xs: Seq<Seq<char>>, ys: Seq<Seq<char>>)
    requires
        sorted_by(xs, lex_leq()),
        sorted_by(ys, lex_leq()),
        xs.to_multiset() == ys.to_multiset(),
    ensures
        xs == ys,
{
    lemma_lex_total_ordering();
    lemma_sorted_unique(xs, ys, lex_leq());
    assert(xs =~= ys);
}

} // verus!
