//! The direct (quadratic-cost) transform, by literal double summation.
//!
//! Output index `k` is the sum over `j` of `x[j]` times the twiddle factor
//! for index `k*j mod n`: the kernel e^(-2*pi*i*k*j/n) forward, and
//! e^(+2*pi*i*k*j/n) with a final division by `n` for the inverse. The
//! contracts pin each output sample on the named floating-point operations
//! whenever no intermediate value overflows out of the finite range.

use vstd::prelude::*;

use crate::complex::{
    ComplexSample, finite_sample, product_sample, scaled_sample, spec_twiddle, sum_sample,
    zero_sample, sample_add, sample_mul, sample_scale, twiddle,
};

verus! {

/// The `j`-th summand of output point `k`: the input sample times the
/// twiddle factor for index `k*j mod n`.
pub open spec fn direct_term(x: Seq<ComplexSample>, k: int, j: int, forward: bool) -> ComplexSample {
    product_sample(
        x[j],
        spec_twiddle((((k * j) % (x.len() as int)) as usize), x.len() as usize, forward),
    )
}

/// The sum of the first `j` summands of output point `k`, accumulated
/// left to right from (+0.0, +0.0).
pub open spec fn direct_point(x: Seq<ComplexSample>, k: int, j: int, forward: bool) -> ComplexSample
    decreases j,
{
    if j <= 0 {
        zero_sample()
    } else {
        sum_sample(direct_point(x, k, j - 1, forward), direct_term(x, k, j - 1, forward))
    }
}

/// Every input sample, summand and partial sum of the first `j` steps of
/// output point `k` is finite, so no rounding escaped the range on which
/// the named operations pin their results.
pub open spec fn direct_ok(x: Seq<ComplexSample>, k: int, j: int, forward: bool) -> bool
    decreases j,
{
    if j <= 0 {
        true
    } else {
        direct_ok(x, k, j - 1, forward) && finite_sample(x[j - 1]) && finite_sample(
            direct_term(x, k, j - 1, forward),
        ) && finite_sample(direct_point(x, k, j - 1, forward))
    }
}

/// One output point of the direct transform.
fn direct_sum(data: &Vec<ComplexSample>, k: usize, forward: bool) -> (r: ComplexSample)
    requires
        k < data@.len(),
    ensures
        direct_ok(data@, k as int, data@.len() as int, forward) ==> r == direct_point(
            data@,
            k as int,
            data@.len() as int,
            forward,
        ),
{
    let len = data.len();
    let mut acc = ComplexSample { re_bits: 0u64, im_bits: 0u64 };
    let mut j: usize = 0;
    while j < len
        invariant
            len == data@.len(),
            k < len,
            j <= len,
            direct_ok(data@, k as int, j as int, forward) ==> acc == direct_point(
                data@,
                k as int,
                j as int,
                forward,
            ),
        decreases len - j,
    {
        proof {
            assert((k as u128) * (j as u128) <= 0xfffffffffffffffffffffffffffffffeu128)
                by (nonlinear_arith)
                requires
                    (k as u128) < 0x10000000000000000u128,
                    (j as u128) < 0x10000000000000000u128,
            ;
        }
        let m = (((k as u128) * (j as u128)) % (len as u128)) as usize;
        let tw = twiddle(m, len, forward);
        let prod = sample_mul(data[j], tw);
        let next = sample_add(acc, prod);
        proof {
            assert(m as int == (k as int * j as int) % (len as int));
            if direct_ok(data@, k as int, (j + 1) as int, forward) {
                assert(direct_ok(data@, k as int, j as int, forward));
                assert(finite_sample(data@[j as int]));
                assert(finite_sample(direct_term(data@, k as int, j as int, forward)));
                assert(finite_sample(direct_point(data@, k as int, j as int, forward)));
                assert(prod == direct_term(data@, k as int, j as int, forward));
                assert(next == direct_point(data@, k as int, (j + 1) as int, forward));
            }
        }
        acc = next;
        j = j + 1;
    }
    acc
}

/// The forward direct transform: any length, no normalization. Wherever
/// the whole summation for point `k` stays finite, the output sample is
/// exactly the named left-to-right sum.
pub fn df_transform(data: &Vec<ComplexSample>) -> (r: Vec<ComplexSample>)
    ensures
        r@.len() == data@.len(),
        forall|k: int|
            0 <= k < data@.len() && direct_ok(data@, k, data@.len() as int, true) ==> #[trigger] r@[k]
                == direct_point(data@, k, data@.len() as int, true),
{
    let len = data.len();
    let mut out: Vec<ComplexSample> = Vec::new();
    let mut k: usize = 0;
    while k < len
        invariant
            len == data@.len(),
            k <= len,
            out@.len() == k as int,
            forall|kk: int|
                0 <= kk < k && direct_ok(data@, kk, data@.len() as int, true) ==> #[trigger] out@[kk]
                    == direct_point(data@, kk, data@.len() as int, true),
        decreases len - k,
    {
        let point = direct_sum(data, k, true);
        out.push(point);
        k = k + 1;
    }
    out
}

/// The inverse direct transform: any length, each output point divided by
/// the length once the summation is complete. Wherever the summation for
/// point `k` stays finite, the output sample is exactly the named sum
/// scaled by the length.
pub fn inverse_df_transform(data: &Vec<ComplexSample>) -> (r: Vec<ComplexSample>)
    ensures
        r@.len() == data@.len(),
        forall|k: int|
            0 <= k < data@.len() && direct_ok(data@, k, data@.len() as int, false)
                && finite_sample(direct_point(data@, k, data@.len() as int, false))
                ==> #[trigger] r@[k] == scaled_sample(
                direct_point(data@, k, data@.len() as int, false),
                data@.len() as usize,
            ),
{
    let len = data.len();
    let mut out: Vec<ComplexSample> = Vec::new();
    let mut k: usize = 0;
    while k < len
        invariant
            len == data@.len(),
            k <= len,
            out@.len() == k as int,
            forall|kk: int|
                0 <= kk < k && direct_ok(data@, kk, data@.len() as int, false)
                    && finite_sample(direct_point(data@, kk, data@.len() as int, false))
                    ==> #[trigger] out@[kk] == scaled_sample(
                    direct_point(data@, kk, data@.len() as int, false),
                    data@.len() as usize,
                ),
        decreases len - k,
    {
        let point = direct_sum(data, k, false);
        let scaled = sample_scale(point, len);
        out.push(scaled);
        k = k + 1;
    }
    out
}

} // verus!
