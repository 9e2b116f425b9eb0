//! Power-of-two padding for the recursive engine.

use vstd::prelude::*;

use crate::complex::{ComplexSample, zero_sample};
use crate::pow2::{is_pow2, next_pow2, next_pow2_from, lemma_next_pow2_sound, lemma_next_pow2_fixed};

verus! {

/// Appends zero samples until the length is the smallest power of two at
/// least the input length, computed by doubling from 1 (so the empty
/// sequence is padded to one zero sample, and a sequence whose length is
/// already a power of two comes back unchanged).
pub fn pad(data: &Vec<ComplexSample>) -> (r: Vec<ComplexSample>)
    requires
        data@.len() <= usize::MAX / 2 + 1,
    ensures
        r@.len() == next_pow2(data@.len() as nat),
        forall|i: int| 0 <= i < data@.len() ==> r@[i] == data@[i],
        forall|i: int| data@.len() <= i < r@.len() ==> r@[i] == zero_sample(),
        is_pow2(data@.len() as nat) ==> r@ == data@,
{
    let len = data.len();
    let mut closest: usize = 1;
    while closest < len
        invariant
            1 <= closest,
            len == data@.len(),
            len <= usize::MAX / 2 + 1,
            closest < len ==> closest <= len - 1,
            is_pow2(closest as nat),
            next_pow2_from(closest as nat, len as nat) == next_pow2(len as nat),
        decreases (if closest < len { len - closest } else { 0int }),
    {
        assert(is_pow2((2 * closest) as nat)) by {
            assert(((2 * closest) as nat) / 2 == closest as nat);
        }
        closest = closest * 2;
    }
    proof {
        assert(next_pow2_from(closest as nat, len as nat) == closest as nat);
        lemma_next_pow2_sound(len as nat);
    }
    let mut out: Vec<ComplexSample> = Vec::new();
    let mut i: usize = 0;
    while i < len
        invariant
            len == data@.len(),
            i <= len,
            out@.len() == i as int,
            forall|j: int| 0 <= j < i ==> out@[j] == data@[j],
        decreases len - i,
    {
        out.push(data[i]);
        i = i + 1;
    }
    while out.len() < closest
        invariant
            len == data@.len(),
            closest as nat == next_pow2(len as nat),
            len <= out@.len() <= closest,
            forall|j: int| 0 <= j < len ==> out@[j] == data@[j],
            forall|j: int| len <= j < out@.len() ==> out@[j] == zero_sample(),
        decreases closest - out@.len(),
    {
        out.push(ComplexSample { re_bits: 0u64, im_bits: 0u64 });
    }
    proof {
        if is_pow2(len as nat) {
            lemma_next_pow2_fixed(len as nat);
            assert(out@ =~= data@);
        }
    }
    out
}

} // verus!
