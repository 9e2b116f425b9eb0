//! The recursive radix-2 transform engine.
//!
//! The engine accepts only power-of-two lengths and reports a typed length
//! error otherwise; padding is the caller's responsibility (see
//! `crate::padding::pad`). A length-1 sequence is its own transform. For a
//! longer one the input is split into its even- and odd-indexed halves,
//! each half is transformed recursively, and the halves are recombined by
//! butterflies: `out[i] = even[i] + twiddle(i) * odd[i]` and
//! `out[i + n/2] = even[i] - twiddle(i) * odd[i]`. The inverse direction
//! flips the twiddle rotation and divides every sample by the length once,
//! after the recursion completes.

use vstd::prelude::*;

use crate::complex::{
    ComplexSample, diff_sample, finite_sample, product_sample, scaled_sample, spec_twiddle,
    sum_sample, sample_add, sample_mul, sample_scale, sample_sub, twiddle,
};
use crate::pow2::{is_pow2, is_power_of_two, lemma_pow2_half};

verus! {

/// The even-indexed samples of a sequence.
pub open spec fn evens(x: Seq<ComplexSample>) -> Seq<ComplexSample> {
    Seq::new((x.len() + 1) / 2, |i: int| x[2 * i])
}

/// The odd-indexed samples of a sequence.
pub open spec fn odds(x: Seq<ComplexSample>) -> Seq<ComplexSample> {
    Seq::new(x.len() / 2, |i: int| x[2 * i + 1])
}

/// The radix-2 recursion over the named floating-point operations: a
/// length-1 sequence is its own transform; otherwise the transforms of the
/// even- and odd-indexed halves are combined by butterflies with the
/// twiddle factors of this level.
pub open spec fn spec_fft(x: Seq<ComplexSample>, forward: bool) -> Seq<ComplexSample>
    decreases x.len(),
{
    if x.len() <= 1 {
        x
    } else {
        let n = x.len() as usize;
        let half = x.len() as int / 2;
        let e = spec_fft(evens(x), forward);
        let o = spec_fft(odds(x), forward);
        Seq::new(
            x.len(),
            |i: int|
                if i < half {
                    sum_sample(e[i], product_sample(spec_twiddle(i as usize, n, forward), o[i]))
                } else {
                    diff_sample(
                        e[i - half],
                        product_sample(spec_twiddle((i - half) as usize, n, forward), o[i - half]),
                    )
                },
        )
    }
}

/// Every half-transform sample and every butterfly product of the whole
/// recursion is finite, so no rounding escaped the range on which the
/// named operations pin their results.
pub open spec fn spec_fft_ok(x: Seq<ComplexSample>, forward: bool) -> bool
    decreases x.len(),
{
    if x.len() <= 1 {
        true
    } else {
        let n = x.len() as usize;
        let half = x.len() as int / 2;
        let e = spec_fft(evens(x), forward);
        let o = spec_fft(odds(x), forward);
        spec_fft_ok(evens(x), forward) && spec_fft_ok(odds(x), forward) && forall|i: int|
            0 <= i < half ==> finite_sample(#[trigger] e[i]) && finite_sample(o[i])
                && finite_sample(product_sample(spec_twiddle(i as usize, n, forward), o[i]))
    }
}

/// The failure reported when the engine is handed a sequence whose length
/// is not a power of two.
#[derive(Clone, Copy, Debug, PartialEq, Eq, Structural)]
pub struct LengthError {
    pub length: usize,
}

/// Splits a sequence into its even-indexed and odd-indexed samples.
pub fn split_even_odd(data: &Vec<ComplexSample>) -> (r: (Vec<ComplexSample>, Vec<ComplexSample>))
    ensures
        r.0@.len() == (data@.len() + 1) / 2,
        r.1@.len() == data@.len() / 2,
        forall|i: int| 0 <= i < r.0@.len() ==> #[trigger] r.0@[i] == data@[2 * i],
        forall|i: int| 0 <= i < r.1@.len() ==> #[trigger] r.1@[i] == data@[2 * i + 1],
{
    let len = data.len();
    let mut even: Vec<ComplexSample> = Vec::new();
    let mut odd: Vec<ComplexSample> = Vec::new();
    let mut i: usize = 0;
    while i < len
        invariant
            len == data@.len(),
            i <= len,
            even@.len() == (i + 1) as int / 2,
            odd@.len() == i as int / 2,
            forall|j: int| 0 <= j < even@.len() ==> #[trigger] even@[j] == data@[2 * j],
            forall|j: int| 0 <= j < odd@.len() ==> #[trigger] odd@[j] == data@[2 * j + 1],
        decreases len - i,
    {
        if i % 2 == 0 {
            even.push(data[i]);
        } else {
            odd.push(data[i]);
        }
        i = i + 1;
    }
    (even, odd)
}

/// One recursion of the radix-2 decomposition, shared by both directions.
/// Wherever the whole recursion stays finite, the output is exactly the
/// named butterfly recursion `spec_fft`.
fn fft_rec(data: &Vec<ComplexSample>, forward: bool) -> (r: Vec<ComplexSample>)
    requires
        is_pow2(data@.len() as nat),
    ensures
        r@.len() == data@.len(),
        data@.len() == 1 ==> r@ == data@,
        spec_fft_ok(data@, forward) ==> r@ == spec_fft(data@, forward),
    decreases data@.len(),
{
    let len = data.len();
    if len == 1 {
        let mut out: Vec<ComplexSample> = Vec::new();
        out.push(data[0]);
        proof {
            assert(out@ =~= data@);
        }
        return out;
    }
    proof {
        lemma_pow2_half(len as nat);
    }
    let half = len / 2;
    let ghost ge = spec_fft(evens(data@), forward);
    let ghost go = spec_fft(odds(data@), forward);
    let ghost gf = spec_fft(data@, forward);
    let (even, odd) = split_even_odd(data);
    proof {
        assert(even@ =~= evens(data@));
        assert(odd@ =~= odds(data@));
    }
    let even_t = fft_rec(&even, forward);
    let odd_t = fft_rec(&odd, forward);
    let mut prods: Vec<ComplexSample> = Vec::new();
    let mut out: Vec<ComplexSample> = Vec::new();
    let mut i: usize = 0;
    while i < half
        invariant
            half * 2 == len,
            1 <= half,
            len == data@.len(),
            half == data@.len() as int / 2,
            ge == spec_fft(evens(data@), forward),
            go == spec_fft(odds(data@), forward),
            gf == spec_fft(data@, forward),
            even_t@.len() == half,
            odd_t@.len() == half,
            i <= half,
            prods@.len() == i as int,
            out@.len() == i as int,
            spec_fft_ok(data@, forward) ==> even_t@ == ge && odd_t@ == go,
            spec_fft_ok(data@, forward) ==> forall|j: int|
                0 <= j < i ==> #[trigger] out@[j] == gf[j] && prods@[j] == product_sample(
                    spec_twiddle(j as usize, len, forward),
                    go[j],
                ),
        decreases half - i,
    {
        let tw = twiddle(i, len, forward);
        let p = sample_mul(tw, odd_t[i]);
        let s = sample_add(even_t[i], p);
        proof {
            if spec_fft_ok(data@, forward) {
                assert(finite_sample(ge[i as int]) && finite_sample(go[i as int])
                    && finite_sample(
                    product_sample(spec_twiddle(i as usize, len, forward), go[i as int]),
                ));
                assert(p == product_sample(spec_twiddle(i as usize, len, forward), go[i as int]));
                assert(gf[i as int] == sum_sample(
                    ge[i as int],
                    product_sample(spec_twiddle(i as usize, len, forward), go[i as int]),
                ));
                assert(s == gf[i as int]);
            }
        }
        prods.push(p);
        out.push(s);
        i = i + 1;
    }
    let mut i: usize = 0;
    while i < half
        invariant
            half * 2 == len,
            1 <= half,
            len == data@.len(),
            half == data@.len() as int / 2,
            ge == spec_fft(evens(data@), forward),
            go == spec_fft(odds(data@), forward),
            gf == spec_fft(data@, forward),
            even_t@.len() == half,
            prods@.len() == half,
            i <= half,
            out@.len() == half + i,
            spec_fft_ok(data@, forward) ==> even_t@ == ge,
            spec_fft_ok(data@, forward) ==> forall|j: int|
                0 <= j < half ==> #[trigger] out@[j] == gf[j] && prods@[j] == product_sample(
                    spec_twiddle(j as usize, len, forward),
                    go[j],
                ),
            spec_fft_ok(data@, forward) ==> forall|j: int|
                half <= j < half + i ==> #[trigger] out@[j] == gf[j],
        decreases half - i,
    {
        let d = sample_sub(even_t[i], prods[i]);
        proof {
            if spec_fft_ok(data@, forward) {
                assert(out@[i as int] == gf[i as int] && prods@[i as int] == product_sample(
                    spec_twiddle(i as usize, len, forward),
                    go[i as int],
                ));
                assert(finite_sample(ge[i as int]) && finite_sample(
                    product_sample(spec_twiddle(i as usize, len, forward), go[i as int]),
                ));
                assert(d == diff_sample(
                    ge[i as int],
                    product_sample(spec_twiddle(i as usize, len, forward), go[i as int]),
                ));
                assert(gf[half + i as int] == diff_sample(
                    ge[i as int],
                    product_sample(spec_twiddle(i as usize, len, forward), go[i as int]),
                ));
            }
        }
        out.push(d);
        i = i + 1;
    }
    proof {
        if spec_fft_ok(data@, forward) {
            assert(out@ =~= gf);
        }
    }
    out
}

/// The forward recursive transform. Succeeds exactly on power-of-two
/// lengths, preserves the length, and returns a length-1 input unchanged;
/// on any other length it reports the offending length and touches
/// nothing.
pub fn ff_transform(data: &Vec<ComplexSample>) -> (r: Result<Vec<ComplexSample>, LengthError>)
    ensures
        (r is Ok) <==> is_pow2(data@.len() as nat),
        r matches Ok(v) ==> v@.len() == data@.len(),
        r matches Err(e) ==> e.length == data@.len(),
        data@.len() == 1 ==> (r matches Ok(v) && v@ == data@),
        is_pow2(data@.len() as nat) && spec_fft_ok(data@, true) ==> (r matches Ok(v) && v@
            == spec_fft(data@, true)),
{
    if !is_power_of_two(data.len()) {
        return Err(LengthError { length: data.len() });
    }
    Ok(fft_rec(data, true))
}

/// The inverse recursive transform. Succeeds exactly on power-of-two
/// lengths; divides every sample by the (padded) length exactly once after
/// the recursion, then truncates to the original pre-padding length the
/// caller recorded. A length-1 input inverted to its own length comes back
/// unchanged (no division by one is performed, which is exact).
pub fn inverse_ff_transform(data: &Vec<ComplexSample>, original_len: usize) -> (r: Result<
    Vec<ComplexSample>,
    LengthError,
>)
    requires
        original_len <= data@.len(),
    ensures
        (r is Ok) <==> is_pow2(data@.len() as nat),
        r matches Ok(v) ==> v@.len() == original_len as int,
        r matches Err(e) ==> e.length == data@.len(),
        data@.len() == 1 && original_len == 1 ==> (r matches Ok(v) && v@ == data@),
        is_pow2(data@.len() as nat) && data@.len() >= 2 && spec_fft_ok(data@, false) && (forall|
            i: int,
        | 0 <= i < data@.len() ==> finite_sample(#[trigger] spec_fft(data@, false)[i])) ==> (
        r matches Ok(v) && forall|i: int|
            0 <= i < original_len ==> #[trigger] v@[i] == scaled_sample(
                spec_fft(data@, false)[i],
                data@.len() as usize,
            )),
{
    let len = data.len();
    if !is_power_of_two(len) {
        return Err(LengthError { length: len });
    }
    let ghost gt = spec_fft(data@, false);
    let t = fft_rec(data, false);
    let mut out: Vec<ComplexSample>;
    if len == 1 {
        out = t;
    } else {
        out = Vec::new();
        let mut i: usize = 0;
        while i < len
            invariant
                t@.len() == len,
                1 <= len,
                i <= len,
                out@.len() == i as int,
                len == data@.len(),
                gt == spec_fft(data@, false),
                spec_fft_ok(data@, false) ==> t@ == gt,
                spec_fft_ok(data@, false) ==> forall|j: int|
                    0 <= j < i && finite_sample(gt[j]) ==> #[trigger] out@[j] == scaled_sample(
                        gt[j],
                        len as usize,
                    ),
            decreases len - i,
        {
            out.push(sample_scale(t[i], len));
            i = i + 1;
        }
    }
    out.truncate(original_len);
    proof {
        if data@.len() == 1 && original_len == 1 {
            assert(out@ =~= data@);
        }
    }
    Ok(out)
}

} // verus!
