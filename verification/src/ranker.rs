//! The candidate ranker: filter the executable index by the typed prefix,
//! order the matches by ascending name length, and keep at most
//! `MAX_SUGGESTIONS` of them.
//!
//! `rank` is a pure function of the index and the prefix; it is recomputed
//! on every interaction-loop iteration. Among names of equal length the
//! order is deliberately left unspecified.
use vstd::prelude::*;

verus! {

use vstd::string::StrSliceExecFns;

use crate::MAX_SUGGESTIONS;
use crate::index::ExecutableIndex;

/// `p` is a literal, case-sensitive, character-wise prefix of `s`.
/// The empty sequence is a prefix of everything.
pub open spec fn is_prefix_of(p: Seq<char>, s: Seq<char>) -> bool {
    p.len() <= s.len() && (forall|i: int| 0 <= i < p.len() ==> s[i] == p[i])
}

/// Some entry of `r` has character sequence `s`.
pub open spec fn list_contains(r: Seq<String>, s: Seq<char>) -> bool {
    exists|k: int| 0 <= k < r.len() && r[k]@ == s
}

/// Law: the empty prefix matches every name, so with an empty input line
/// every index member is a valid candidate.
pub proof fn lemma_empty_prefix_matches_all(s: Seq<char>)
    ensures
        is_prefix_of(Seq::<char>::empty(), s),
{
}

/// Whether `name` starts with the characters of `prefix`.
pub fn starts_with_chars(name: &str, prefix: &Vec<char>) -> (r: bool)
    ensures
        r == is_prefix_of(prefix@, name@),
{
    let n = name.unicode_len();
    if prefix.len() > n {
        return false;
    }
    let mut i: usize = 0;
    while i < prefix.len()
        invariant
            prefix@.len() <= name@.len(),
            i <= prefix@.len(),
            forall|j: int| 0 <= j < i ==> name@[j] == prefix@[j],
        decreases prefix@.len() - i,
    {
        if name.get_char(i) != prefix[i] {
            return false;
        }
        i = i + 1;
    }
    true
}

/// Position of a shortest name in a non-empty list.
fn min_length_position(v: &Vec<String>) -> (r: usize)
    requires
        v@.len() > 0,
    ensures
        r < v@.len(),
        forall|u: int| 0 <= u < v@.len() ==> v@[r as int]@.len() <= #[trigger] v@[u]@.len(),
{
    let mut best: usize = 0;
    let mut best_len: usize = v[0].as_str().unicode_len();
    let mut t: usize = 1;
    while t < v.len()
        invariant
            0 < v@.len(),
            best < v@.len(),
            t <= v@.len(),
            best_len == v@[best as int]@.len(),
            forall|u: int| 0 <= u < t ==> best_len <= #[trigger] v@[u]@.len(),
        decreases v@.len() - t,
    {
        let l = v[t].as_str().unicode_len();
        if l < best_len {
            best = t;
            best_len = l;
        }
        t = t + 1;
    }
    best
}

/// Rank the index against the typed prefix.
///
/// Returns at most `MAX_SUGGESTIONS` names such that
/// - every returned name is an index member that starts with `prefix`;
/// - the returned names are pairwise distinct;
/// - they come in non-decreasing order of length;
/// - nothing is left out unfairly: a matching index member missing from the
///   result means the result is already full, and only with names no longer
///   than the missing one.
pub fn rank(index: &ExecutableIndex, prefix: &Vec<char>) -> (r: Vec<String>)
    requires
        index.wf(),
    ensures
        r@.len() <= MAX_SUGGESTIONS,
        forall|k: int|
            0 <= k < r@.len() ==> index.contains_name(#[trigger] r@[k]@) && is_prefix_of(
                prefix@,
                r@[k]@,
            ),
        forall|k1: int, k2: int| 0 <= k1 < k2 < r@.len() ==> r@[k1]@.len() <= r@[k2]@.len(),
        forall|k1: int, k2: int| 0 <= k1 < k2 < r@.len() ==> r@[k1]@ != r@[k2]@,
        forall|j: int|
            0 <= j < index.len() && is_prefix_of(prefix@, #[trigger] index.name_at(j))
                && !list_contains(r@, index.name_at(j)) ==> r@.len() == MAX_SUGGESTIONS && (
            forall|k: int| 0 <= k < r@.len() ==> #[trigger] r@[k]@.len() <= index.name_at(j).len()),
{
    let mut matched: Vec<String> = Vec::new();
    // Ghost record of where each match came from in the index; positions are
    // strictly increasing, which carries distinctness through the filter.
    let ghost mut sources: Seq<int> = Seq::empty();
    let mut i: usize = 0;
    while i < index.names.len()
        invariant
            index.wf(),
            i <= index.len(),
            sources.len() == matched@.len(),
            forall|k: int| 0 <= k < sources.len() ==> 0 <= #[trigger] sources[k] < i,
            forall|k1: int, k2: int|
                #![trigger sources[k1], sources[k2]]
                0 <= k1 < k2 < sources.len() ==> sources[k1] < sources[k2],
            forall|k: int|
                0 <= k < matched@.len() ==> #[trigger] matched@[k]@ == index.name_at(sources[k])
                    && is_prefix_of(prefix@, matched@[k]@),
            forall|j: int|
                0 <= j < i && is_prefix_of(prefix@, #[trigger] index.name_at(j)) ==> list_contains(
                    matched@,
                    index.name_at(j),
                ),
        decreases index.len() - i,
    {
        if starts_with_chars(index.names[i].as_str(), prefix) {
            let ghost before = matched@;
            matched.push(index.names[i].clone());
            proof {
                sources = sources.push(i as int);
                assert(matched@[before.len() as int]@ == index.name_at(i as int));
                assert forall|j: int|
                    0 <= j < i + 1 && is_prefix_of(prefix@, #[trigger] index.name_at(j))
                        implies list_contains(matched@, index.name_at(j)) by {
                    if j < i {
                        let k = choose|k: int|
                            0 <= k < before.len() && before[k]@ == index.name_at(j);
                        assert(matched@[k]@ == index.name_at(j));
                    } else {
                        assert(matched@[before.len() as int]@ == index.name_at(j));
                    }
                }
            }
        }
        i = i + 1;
    }
    proof {
        assert forall|k: int|
            0 <= k < matched@.len() implies index.contains_name(#[trigger] matched@[k]@)
                && is_prefix_of(prefix@, matched@[k]@) by {
            assert(index.name_at(sources[k]) == matched@[k]@);
            assert(is_prefix_of(prefix@, index.name_at(sources[k])));
        }
        assert forall|k1: int, k2: int|
            0 <= k1 < k2 < matched@.len() implies matched@[k1]@ != matched@[k2]@ by {
            assert(index.name_at(sources[k1]) != index.name_at(sources[k2]));
        }
    }
    // Move the shortest remaining match over, until the result is full or
    // the matches are exhausted.
    let mut r: Vec<String> = Vec::new();
    while r.len() < MAX_SUGGESTIONS && matched.len() > 0
        invariant
            r@.len() <= MAX_SUGGESTIONS,
            forall|k: int|
                0 <= k < r@.len() ==> index.contains_name(#[trigger] r@[k]@) && is_prefix_of(
                    prefix@,
                    r@[k]@,
                ),
            forall|k: int|
                0 <= k < matched@.len() ==> index.contains_name(#[trigger] matched@[k]@)
                    && is_prefix_of(prefix@, matched@[k]@),
            forall|j: int|
                0 <= j < index.len() && is_prefix_of(prefix@, #[trigger] index.name_at(j))
                    ==> list_contains(r@, index.name_at(j)) || list_contains(
                    matched@,
                    index.name_at(j),
                ),
            forall|k1: int, k2: int| 0 <= k1 < k2 < r@.len() ==> r@[k1]@.len() <= r@[k2]@.len(),
            forall|k: int, t: int|
                #![trigger r@[k], matched@[t]]
                0 <= k < r@.len() && 0 <= t < matched@.len() ==> r@[k]@.len()
                    <= matched@[t]@.len(),
            forall|k1: int, k2: int| 0 <= k1 < k2 < r@.len() ==> r@[k1]@ != r@[k2]@,
            forall|k1: int, k2: int|
                0 <= k1 < k2 < matched@.len() ==> matched@[k1]@ != matched@[k2]@,
            forall|k: int, t: int|
                #![trigger r@[k], matched@[t]]
                0 <= k < r@.len() && 0 <= t < matched@.len() ==> r@[k]@ != matched@[t]@,
        decreases matched@.len(),
    {
        let m = min_length_position(&matched);
        let ghost old_r = r@;
        let ghost old_matched = matched@;
        let shortest = matched.swap_remove(m);
        r.push(shortest);
        proof {
            assert(r@ == old_r.push(old_matched[m as int]));
            assert(r@[old_r.len() as int] == old_matched[m as int]);
            assert forall|t: int|
                0 <= t < matched@.len() implies #[trigger] matched@[t] == (if t == m {
                old_matched[old_matched.len() - 1]
            } else {
                old_matched[t]
            }) by {}
            assert forall|j: int|
                0 <= j < index.len() && is_prefix_of(prefix@, #[trigger] index.name_at(j))
                    implies list_contains(r@, index.name_at(j)) || list_contains(
                matched@,
                index.name_at(j),
            ) by {
                let s = index.name_at(j);
                if list_contains(old_r, s) {
                    let k = choose|k: int| 0 <= k < old_r.len() && old_r[k]@ == s;
                    assert(r@[k]@ == s);
                } else {
                    let t0 = choose|t0: int|
                        0 <= t0 < old_matched.len() && old_matched[t0]@ == s;
                    if t0 == m {
                        assert(r@[old_r.len() as int]@ == s);
                    } else if t0 == old_matched.len() - 1 {
                        assert(matched@[m as int]@ == s);
                    } else {
                        assert(matched@[t0]@ == s);
                    }
                }
            }
        }
    }
    proof {
        if matched@.len() > 0 {
            assert(r@.len() == MAX_SUGGESTIONS);
        }
        assert forall|j: int|
            0 <= j < index.len() && is_prefix_of(prefix@, #[trigger] index.name_at(j))
                && !list_contains(r@, index.name_at(j)) implies r@.len() == MAX_SUGGESTIONS && (
        forall|k: int| 0 <= k < r@.len() ==> #[trigger] r@[k]@.len() <= index.name_at(j).len()) by {
            assert(list_contains(matched@, index.name_at(j)));
            let t = choose|t: int| 0 <= t < matched@.len() && matched@[t]@ == index.name_at(j);
            assert forall|k: int|
                0 <= k < r@.len() implies #[trigger] r@[k]@.len() <= index.name_at(j).len() by {
                assert(r@[k]@.len() <= matched@[t]@.len());
            }
        }
    }
    r
}

} // verus!
