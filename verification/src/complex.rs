//! Complex samples and their arithmetic.
//!
//! A sample is an ordered pair of double-precision reals held as IEEE 754
//! bit patterns, so that the verified code can carry, compare and assemble
//! values exactly while every floating-point operation itself stands behind
//! a small trusted wrapper. The deterministic operations (complex addition,
//! subtraction, multiplication, scaling, and the twiddle-factor pieces
//! computed through `libm`) are given names, so the callers' contracts can
//! pin their results on them.

use vstd::prelude::*;

use num_traits::ToPrimitive;

verus! {

/// One complex sample: the IEEE 754 bit patterns of its real and
/// imaginary double-precision components.
#[derive(Clone, Copy, Debug, PartialEq, Eq, Structural)]
pub struct ComplexSample {
    pub re_bits: u64,
    pub im_bits: u64,
}

/// The bits of a double whose exponent field is not all ones: neither an
/// infinity nor a NaN.
pub open spec fn finite_bits(x: u64) -> bool {
    (x >> 52u64) & 0x7ffu64 != 0x7ffu64
}

/// Both components of the sample are finite.
pub open spec fn finite_sample(s: ComplexSample) -> bool {
    finite_bits(s.re_bits) && finite_bits(s.im_bits)
}

/// Negation of a double is exactly a flip of its sign bit.
pub open spec fn flip_sign_bits(x: u64) -> u64 {
    x ^ 0x8000_0000_0000_0000u64
}

/// The sample (+0.0, +0.0): both bit patterns are zero.
pub open spec fn zero_sample() -> ComplexSample {
    ComplexSample { re_bits: 0u64, im_bits: 0u64 }
}

/// The complex sum of two samples, componentwise IEEE 754 addition.
pub uninterp spec fn sum_sample(a: ComplexSample, b: ComplexSample) -> ComplexSample;

/// The complex difference of two samples, componentwise IEEE 754 subtraction.
pub uninterp spec fn diff_sample(a: ComplexSample, b: ComplexSample) -> ComplexSample;

/// The complex product of two samples: (ac - bd, ad + bc) in IEEE 754.
pub uninterp spec fn product_sample(a: ComplexSample, b: ComplexSample) -> ComplexSample;

/// The sample divided componentwise by the length `n`, in IEEE 754.
pub uninterp spec fn scaled_sample(s: ComplexSample, n: usize) -> ComplexSample;

/// The bits of the double 2*pi*k/n.
pub uninterp spec fn angle_of(k: usize, n: usize) -> u64;

/// The bits of the cosine (by `libm`) of the double with bits `x`.
pub uninterp spec fn cos_of(x: u64) -> u64;

/// The bits of the sine (by `libm`) of the double with bits `x`.
pub uninterp spec fn sin_of(x: u64) -> u64;

/// Relies on num_complex addition: the sum of two complex doubles is the
/// componentwise IEEE 754 sum, a deterministic function of the operand bits
/// that is never NaN when both operands are finite.
#[verifier::external_body]
pub fn sample_add(a: ComplexSample, b: ComplexSample) -> (r: ComplexSample)
    ensures
        finite_sample(a) && finite_sample(b) ==> r == sum_sample(a, b),
{
    let x = num_complex::Complex64::new(bytemuck::cast(a.re_bits), bytemuck::cast(a.im_bits));
    let y = num_complex::Complex64::new(bytemuck::cast(b.re_bits), bytemuck::cast(b.im_bits));
    let s = x + y;
    ComplexSample { re_bits: bytemuck::cast(s.re), im_bits: bytemuck::cast(s.im) }
}

/// Relies on num_complex subtraction: the componentwise IEEE 754
/// difference, deterministic and never NaN on finite operands.
#[verifier::external_body]
pub fn sample_sub(a: ComplexSample, b: ComplexSample) -> (r: ComplexSample)
    ensures
        finite_sample(a) && finite_sample(b) ==> r == diff_sample(a, b),
{
    let x = num_complex::Complex64::new(bytemuck::cast(a.re_bits), bytemuck::cast(a.im_bits));
    let y = num_complex::Complex64::new(bytemuck::cast(b.re_bits), bytemuck::cast(b.im_bits));
    let d = x - y;
    ComplexSample { re_bits: bytemuck::cast(d.re), im_bits: bytemuck::cast(d.im) }
}

/// Relies on num_complex multiplication: (ac - bd, ad + bc) in IEEE 754
/// double arithmetic. On finite operands the result is deterministic
/// unless an intermediate overflow produces NaN (whose payload the
/// platform chooses), so the result is pinned only where the named
/// product is itself finite.
#[verifier::external_body]
pub fn sample_mul(a: ComplexSample, b: ComplexSample) -> (r: ComplexSample)
    ensures
        finite_sample(a) && finite_sample(b) && finite_sample(product_sample(a, b)) ==> r
            == product_sample(a, b),
{
    let x = num_complex::Complex64::new(bytemuck::cast(a.re_bits), bytemuck::cast(a.im_bits));
    let y = num_complex::Complex64::new(bytemuck::cast(b.re_bits), bytemuck::cast(b.im_bits));
    let p = x * y;
    ComplexSample { re_bits: bytemuck::cast(p.re), im_bits: bytemuck::cast(p.im) }
}

/// Relies on num_complex division by a scalar: both components are divided
/// by `n` in IEEE 754. With `n >= 1` the quotient of a finite component is
/// finite and deterministic.
#[verifier::external_body]
pub fn sample_scale(s: ComplexSample, n: usize) -> (r: ComplexSample)
    requires
        1 <= n,
    ensures
        finite_sample(s) ==> r == scaled_sample(s, n) && finite_sample(r),
{
    let x = num_complex::Complex64::new(bytemuck::cast(s.re_bits), bytemuck::cast(s.im_bits));
    let q = x / n.to_f64().unwrap();
    ComplexSample { re_bits: bytemuck::cast(q.re), im_bits: bytemuck::cast(q.im) }
}

/// Relies on IEEE 754 double multiplication and division and on
/// libm::fabs: the bits of the rotation angle 2*pi*k/n. With `n >= 1` the
/// value is finite and a deterministic function of `k` and `n` alone.
#[verifier::external_body]
fn angle_bits(k: usize, n: usize) -> (r: u64)
    requires
        1 <= n,
    ensures
        r == angle_of(k, n),
        finite_bits(r),
{
    let tau = libm::fabs(bytemuck::cast(0x401921FB54442D18u64));
    bytemuck::cast(tau * (k.to_f64().unwrap() / n.to_f64().unwrap()))
}

/// Relies on libm::cos, a pure software implementation: the result bits
/// are a function of the argument bits alone, and the cosine of a finite
/// double is finite.
#[verifier::external_body]
fn cos_bits(x: u64) -> (r: u64)
    ensures
        finite_bits(x) ==> r == cos_of(x) && finite_bits(r),
{
    bytemuck::cast(libm::cos(bytemuck::cast(x)))
}

/// Relies on libm::sin, a pure software implementation: the result bits
/// are a function of the argument bits alone, and the sine of a finite
/// double is finite.
#[verifier::external_body]
fn sin_bits(x: u64) -> (r: u64)
    ensures
        finite_bits(x) ==> r == sin_of(x) && finite_bits(r),
{
    bytemuck::cast(libm::sin(bytemuck::cast(x)))
}

/// The twiddle factor e^(-2*pi*i*k/n) for the forward direction and
/// e^(+2*pi*i*k/n) for the inverse, assembled from the named angle,
/// cosine and sine: (cos, -sin) forward, (cos, sin) inverse.
pub open spec fn spec_twiddle(k: usize, n: usize, forward: bool) -> ComplexSample {
    let c = cos_of(angle_of(k, n));
    let s = sin_of(angle_of(k, n));
    ComplexSample { re_bits: c, im_bits: if forward { flip_sign_bits(s) } else { s } }
}

/// The twiddle factor for index `k` at transform length `n`: the cosine
/// and sine of 2*pi*k/n, the sine negated (a sign-bit flip, which is exact)
/// for the forward direction.
pub fn twiddle(k: usize, n: usize, forward: bool) -> (r: ComplexSample)
    requires
        1 <= n,
    ensures
        r == spec_twiddle(k, n, forward),
        finite_sample(r),
{
    let a = angle_bits(k, n);
    let c = cos_bits(a);
    let s = sin_bits(a);
    let im = if forward {
        proof {
            assert(((s ^ 0x8000_0000_0000_0000u64) >> 52u64) & 0x7ffu64 == (s >> 52u64)
                & 0x7ffu64) by (bit_vector);
        }
        s ^ 0x8000_0000_0000_0000u64
    } else {
        s
    };
    ComplexSample { re_bits: c, im_bits: im }
}

} // verus!
