//! Byte strings: comparison and concatenation.

use vstd::prelude::*;
use vstd::slice::slice_to_vec;

verus! {

/// `a` and `b` agree on their first `n` bytes.
pub open spec fn same_prefix(a: Seq<u8>, b: Seq<u8>, n: int) -> bool {
    forall|j: int| 0 <= j < n ==> a[j] == b[j]
}

/// Two byte strings of one length are equal exactly if they agree on every byte.
pub proof fn lemma_same_prefix_is_equality(a: Seq<u8>, b: Seq<u8>)
    requires
        a.len() == b.len(),
    ensures
        same_prefix(a, b, a.len() as int) <==> a == b,
{
    if same_prefix(a, b, a.len() as int) {
        assert(a =~= b);
    }
}

/// Tells whether two byte strings are equal.
///
/// The strings' lengths are compared first.  Strings of one length are
/// compared by folding the differences of all their bytes into one byte, so
/// the time taken does not tell where they differ.
pub fn ct_eq(a: &[u8], b: &[u8]) -> (same: bool)
    ensures
        same == (a@ == b@),
{
    if a.len() != b.len() {
        return false;
    }
    let mut diff: u8 = 0;
    let mut i: usize = 0;
    while i < a.len()
        invariant
            a.len() == b.len(),
            i <= a.len(),
            diff == 0 <==> same_prefix(a@, b@, i as int),
        decreases a.len() - i,
    {
        let x: u8 = a[i];
        let y: u8 = b[i];
        assert((diff | (x ^ y)) == 0 <==> diff == 0 && x == y) by (bit_vector);
        diff = diff | (x ^ y);
        i += 1;
    }
    proof {
        lemma_same_prefix_is_equality(a@, b@);
    }
    diff == 0
}

/// The concatenation of two byte strings.
pub fn join(a: &[u8], b: &[u8]) -> (joined: Vec<u8>)
    ensures
        joined@ == a@ + b@,
{
    let mut joined = slice_to_vec(a);
    joined.extend_from_slice(b);
    assert(joined@ =~= a@ + b@);
    joined
}

} // verus!
