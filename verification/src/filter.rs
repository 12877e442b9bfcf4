use vstd::prelude::*;

verus! {

use vstd::string::StrSliceExecFns;

/// Error raised when a name pattern fails to compile. It is surfaced before
/// any repository is touched, and is distinct from every runtime outcome.
#[derive(Clone, Copy, Debug, PartialEq, Eq, Structural)]
pub enum FilterError {
    /// The empty pattern is rejected: it would match every name, which is
    /// what an absent filter already expresses.
    EmptyPattern,
}

/// A compiled name-matching predicate.
///
/// The dialect is a case-sensitive literal substring match: a candidate
/// matches when the pattern text occurs contiguously anywhere in it.
#[derive(Debug)]
pub struct Filter {
    pattern: String,
}

impl View for Filter {
    type V = Seq<char>;

    closed spec fn view(&self) -> Seq<char> {
        self.pattern@
    }
}

/// The pattern occurs in `name` starting at position `i`.
pub open spec fn match_at(pattern: Seq<char>, name: Seq<char>, i: int) -> bool {
    &&& 0 <= i
    &&& i + pattern.len() <= name.len()
    &&& name.subrange(i, i + pattern.len()) == pattern
}

/// Case-sensitive substring matching: the pattern occurs somewhere in `name`.
pub open spec fn spec_matches(pattern: Seq<char>, name: Seq<char>) -> bool {
    exists|i: int| match_at(pattern, name, i)
}

/// An absent filter matches every name; a present one matches by its pattern.
pub open spec fn opt_matches(filter: Option<Filter>, name: Seq<char>) -> bool {
    match filter {
        Option::None => true,
        Option::Some(f) => spec_matches(f@, name),
    }
}

/// Compares the pattern against `name` at one fixed start position.
fn match_here(pattern: &str, name: &str, i: usize, plen: usize, nlen: usize) -> (r: bool)
    requires
        plen == pattern@.len(),
        nlen == name@.len(),
        i + plen <= nlen,
    ensures
        r == match_at(pattern@, name@, i as int),
{
    let mut j: usize = 0;
    while j < plen
        invariant
            j <= plen,
            plen == pattern@.len(),
            nlen == name@.len(),
            i + plen <= nlen,
            forall|k: int| 0 <= k < j ==> pattern@[k] == name@[i + k],
        decreases plen - j,
    {
        if pattern.get_char(j) != name.get_char(i + j) {
            assert(!match_at(pattern@, name@, i as int)) by {
                if match_at(pattern@, name@, i as int) {
                    assert(name@.subrange(i as int, i + pattern@.len())[j as int] == pattern@[j as int]);
                }
            }
            return false;
        }
        j += 1;
    }
    assert(name@.subrange(i as int, i + pattern@.len()) =~= pattern@);
    true
}

impl Filter {
    /// Compiles a pattern into a filter.
    ///
    /// Every non-empty pattern compiles; the empty pattern is the one
    /// invalid input and is rejected before any target is touched.
    pub fn compile(pattern: &str) -> (r: Result<Filter, FilterError>)
        ensures
            r is Ok <==> pattern@.len() > 0,
            r matches Ok(f) ==> f@ == pattern@,
            r matches Err(e) ==> e == FilterError::EmptyPattern,
    {
        if pattern.unicode_len() == 0 {
            Err(FilterError::EmptyPattern)
        } else {
            Ok(Filter { pattern: pattern.to_owned() })
        }
    }

    /// Tests a candidate name against the compiled pattern. Matching never
    /// fails, and the result is a pure function of pattern and candidate.
    pub fn matches(&self, name: &str) -> (r: bool)
        ensures
            r == spec_matches(self@, name@),
    {
        let plen = self.pattern.as_str().unicode_len();
        let nlen = name.unicode_len();
        if plen > nlen {
            assert(forall|i: int| !match_at(self@, name@, i));
            return false;
        }
        if plen == 0 {
            assert(match_at(self@, name@, 0)) by {
                assert(name@.subrange(0, 0) =~= self@);
            }
            return true;
        }
        let last = nlen - plen;
        let mut i: usize = 0;
        while i <= last
            invariant
                plen == self@.len(),
                nlen == name@.len(),
                0 < plen <= nlen,
                last == nlen - plen,
                i <= last + 1,
                forall|k: int| 0 <= k < i ==> !match_at(self@, name@, k),
            decreases last + 1 - i,
        {
            if match_here(self.pattern.as_str(), name, i, plen, nlen) {
                return true;
            }
            i += 1;
        }
        assert(forall|k: int| !match_at(self@, name@, k)) by {
            assert(forall|k: int| k > last ==> !match_at(self@, name@, k));
        }
        false
    }
}

/// Matching is deterministic and pure: two filters compiled from the same
/// pattern agree on every candidate name, across any number of calls.
pub proof fn lemma_matches_deterministic(f1: Filter, f2: Filter, name: Seq<char>)
    requires
        f1@ == f2@,
    ensures
        spec_matches(f1@, name) == spec_matches(f2@, name),
{
}

} // verus!
