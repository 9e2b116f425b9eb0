//! Round trips of character data through the recursive engine, mirroring
//! the text pipeline: pack two character codes per complex sample, pad to a
//! power of two, transform, nudge one frequency bin by a zero offset, invert,
//! truncate, and unpack.

use rand::Rng;

use fourier::codec::{decode_pairs, encode_pairs};
use fourier::complex::ComplexSample;
use fourier::engine::{ff_transform, inverse_ff_transform};
use fourier::padding::pad;

fn encode_reals(data: impl Iterator<Item = f64>) -> (Vec<ComplexSample>, bool) {
    let bits: Vec<u64> = data.map(|v| v.to_bits()).collect();
    encode_pairs(&bits)
}

fn decode_reals(data: Vec<ComplexSample>, padded: bool) -> Vec<f64> {
    decode_pairs(&data, padded).into_iter().map(f64::from_bits).collect()
}

fn buggify_text(text: &str, strength: f64) -> String {
    if text.is_empty() {
        return String::new();
    }
    let (data_points, padded) = encode_reals(text.chars().map(|c| c as u32 as f64));
    let original_len = data_points.len();

    let mut waves = ff_transform(&pad(&data_points)).unwrap();

    let mut rng = rand::thread_rng();
    let index = rng.gen_range(0..waves.len());
    waves[index] = ComplexSample {
        re_bits: (f64::from_bits(waves[index].re_bits) + strength).to_bits(),
        im_bits: (f64::from_bits(waves[index].im_bits) + strength).to_bits(),
    };

    let back = inverse_ff_transform(&waves, original_len).unwrap();
    decode_reals(back, padded)
        .into_iter()
        .filter_map(|v| char::from_u32(v.round() as u32))
        .collect()
}

fn test_buggify(text: &str) {
    let out = buggify_text(text, 0.0);
    assert_eq!(out, text);
}

fn random_amount_test(amount: usize) {
    let mut rng = rand::thread_rng();
    let text = &(0..amount)
        .map(|_| rng.gen_range(32..127u8) as char)
        .collect::<String>();
    test_buggify(text);
}

#[test]
fn one_random_fourier_text() {
    random_amount_test(1);
}

#[test]
fn two_random_fourier_text() {
    random_amount_test(2);
}

#[test]
fn four_random_fourier_text() {
    random_amount_test(4);
}

#[test]
fn eight_random_fourier_text() {
    random_amount_test(8);
}

#[test]
fn small_random_fourier_text() {
    random_amount_test(10);
}

#[test]
fn large_random_fourier_text() {
    random_amount_test(100);
}
