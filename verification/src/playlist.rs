//! Playlist orderings: the play order is a permutation of the catalog
//! indices `0..n`. Non-shuffled modes use the ascending (identity) ordering;
//! shuffle draws a random rearrangement. The cursor is relocated after a
//! reordering by a first-match search for the active index.

use vstd::prelude::*;
use rand::seq::SliceRandom;

verus! {

/// The ascending ordering of the catalog indices `0..n`.
pub open spec fn identity_seq(n: nat) -> Seq<usize> {
    Seq::new(n, |i: int| i as usize)
}

/// `s` is a play order over a catalog of `n` tracks: a rearrangement of the
/// indices `0..n`, each present exactly once.
pub open spec fn is_index_permutation(s: Seq<usize>, n: nat) -> bool {
    s.to_multiset() == identity_seq(n).to_multiset()
}

/// The facts navigation needs from a permutation: it has one slot per track,
/// every slot holds a valid catalog index, and every catalog index sits in
/// some slot.
pub proof fn lemma_perm_facts(s: Seq<usize>, n: nat)
    requires
        is_index_permutation(s, n),
    ensures
        s.len() == n,
        forall|i: int| 0 <= i < s.len() ==> (#[trigger] s[i]) < n,
        forall|v: usize| v < n ==> s.contains(v),
{
    broadcast use vstd::seq_lib::group_to_multiset_ensures;

    assert(identity_seq(n).len() == n);
    assert(s.to_multiset().len() == s.len());
    assert(identity_seq(n).to_multiset().len() == identity_seq(n).len());
    assert forall|i: int| 0 <= i < s.len() implies (#[trigger] s[i]) < n by {
        assert(s.contains(s[i]));
        assert(identity_seq(n).to_multiset().count(s[i]) > 0);
        assert(identity_seq(n).contains(s[i]));
        let j = choose|j: int|
            0 <= j < identity_seq(n).len() && identity_seq(n)[j] == s[i];
        assert(identity_seq(n)[j] == j as usize);
    };
    assert forall|v: usize| v < n implies s.contains(v) by {
        assert(identity_seq(n)[v as int] == v);
        assert(identity_seq(n).contains(v));
        assert(identity_seq(n).to_multiset().count(v) > 0);
    };
}

/// Build the ascending play order over a catalog of `n` tracks.
pub fn identity_playlist(n: usize) -> (r: Vec<usize>)
    ensures
        r@ == identity_seq(n as nat),
        is_index_permutation(r@, n as nat),
{
    let mut v: Vec<usize> = Vec::new();
    let mut i: usize = 0;
    while i < n
        invariant
            i <= n,
            v@.len() == i,
            forall|j: int| 0 <= j < i ==> v@[j] == j,
        decreases n - i,
    {
        v.push(i);
        i += 1;
    }
    proof {
        assert(v@ =~= identity_seq(n as nat));
    }
    v
}

/// The slot of the first occurrence of `x` in `v`, if `x` occurs at all.
pub fn find_index(v: &Vec<usize>, x: usize) -> (r: Option<usize>)
    ensures
        match r {
            Some(i) => i < v@.len() && v@[i as int] == x
                && forall|j: int| 0 <= j < i ==> v@[j] != x,
            None => forall|j: int| 0 <= j < v@.len() ==> v@[j] != x,
        },
{
    let mut i: usize = 0;
    while i < v.len()
        invariant
            i <= v@.len(),
            forall|j: int| 0 <= j < i ==> v@[j] != x,
        decreases v@.len() - i,
    {
        if v[i] == x {
            return Some(i);
        }
        i += 1;
    }
    None
}

/// Relies on rand's `SliceRandom::shuffle` (a Fisher–Yates pass of in-place
/// swaps, driven by `rand::rng()`): it rearranges the slice and neither adds,
/// drops nor alters elements, so the new contents are a permutation of the
/// old. Nothing more is assumed: which rearrangement comes out is random.
#[verifier::external_body]
pub(crate) fn shuffle_in_place(v: &mut Vec<usize>)
    ensures
        final(v)@.to_multiset() == old(v)@.to_multiset(),
{
    v.as_mut_slice().shuffle(&mut rand::rng());
}

/// A rearrangement of a play order is again a play order.
pub proof fn lemma_perm_transfer(s1: Seq<usize>, s2: Seq<usize>, n: nat)
    requires
        is_index_permutation(s1, n),
        s2.to_multiset() == s1.to_multiset(),
    ensures
        is_index_permutation(s2, n),
{
}

} // verus!
