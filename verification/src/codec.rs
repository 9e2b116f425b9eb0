//! Packing scalars into complex samples and back.
//!
//! A scalar stream is packed two per sample: the first of a pair into the
//! real slot, the second into the imaginary slot. A final unpaired scalar
//! is completed with a zero imaginary slot, and the flag returned beside
//! the samples records that this happened so the decoder can drop the
//! filler again. Scalars travel as the bit patterns of their
//! double-precision values; turning a domain value into such bits is the
//! caller's side of the boundary.

use vstd::prelude::*;

use crate::complex::ComplexSample;

verus! {

/// The sample sequence that packs `xs` two per sample, a zero filling the
/// last imaginary slot when `xs` has odd length.
pub open spec fn paired(xs: Seq<u64>) -> Seq<ComplexSample> {
    Seq::new(
        (xs.len() + 1) / 2,
        |i: int|
            ComplexSample {
                re_bits: xs[2 * i],
                im_bits: if 2 * i + 1 < xs.len() {
                    xs[2 * i + 1]
                } else {
                    0u64
                },
            },
    )
}

/// The scalar sequence read back from packed samples: both slots of each
/// sample in order, the final filler dropped when `padded` says one was
/// added.
pub open spec fn unpaired(s: Seq<ComplexSample>, padded: bool) -> Seq<u64> {
    let full = Seq::new(
        2 * s.len(),
        |i: int|
            if i % 2 == 0 {
                s[i / 2].re_bits
            } else {
                s[i / 2].im_bits
            },
    );
    if padded && s.len() >= 1 {
        full.drop_last()
    } else {
        full
    }
}

/// Packing then unpacking returns the scalar stream unchanged.
pub proof fn lemma_pairing_round_trip(xs: Seq<u64>)
    ensures
        unpaired(paired(xs), xs.len() % 2 == 1) == xs,
{
    assert(unpaired(paired(xs), xs.len() % 2 == 1) =~= xs);
}

/// Packs a scalar stream two per sample, reporting whether a final
/// unpaired scalar was completed with a zero.
pub fn encode_pairs(data: &Vec<u64>) -> (r: (Vec<ComplexSample>, bool))
    ensures
        r.0@ == paired(data@),
        r.1 == (data@.len() % 2 == 1),
{
    let len = data.len();
    let mut out: Vec<ComplexSample> = Vec::new();
    let mut i: usize = 0;
    while i + 1 < len
        invariant
            len == data@.len(),
            i <= len,
            i % 2 == 0,
            i + 1 < len ==> i + 2 <= len,
            out@.len() == i as int / 2,
            forall|j: int| 0 <= j < out@.len() ==> #[trigger] out@[j] == paired(data@)[j],
        decreases len - i,
    {
        out.push(ComplexSample { re_bits: data[i], im_bits: data[i + 1] });
        i = i + 2;
    }
    let padded = i < len;
    if padded {
        out.push(ComplexSample { re_bits: data[i], im_bits: 0u64 });
    }
    proof {
        assert(out@ =~= paired(data@));
    }
    (out, padded)
}

/// Reads the scalar stream back out of packed samples, dropping the final
/// zero filler when `padded` reports one was added (a flag on an empty
/// sequence drops nothing).
pub fn decode_pairs(data: &Vec<ComplexSample>, padded: bool) -> (r: Vec<u64>)
    requires
        data@.len() <= usize::MAX / 2,
    ensures
        r@ == unpaired(data@, padded),
{
    let len = data.len();
    let mut out: Vec<u64> = Vec::new();
    let mut i: usize = 0;
    while i < len
        invariant
            len == data@.len(),
            len <= usize::MAX / 2,
            i <= len,
            out@.len() == 2 * i as int,
            forall|j: int|
                0 <= j < out@.len() ==> #[trigger] out@[j] == (if j % 2 == 0 {
                    data@[j / 2].re_bits
                } else {
                    data@[j / 2].im_bits
                }),
        decreases len - i,
    {
        out.push(data[i].re_bits);
        out.push(data[i].im_bits);
        i = i + 1;
    }
    if padded && out.len() > 0 {
        let _ = out.pop();
    }
    proof {
        assert(out@ =~= unpaired(data@, padded));
    }
    out
}

} // verus!
