use fourier::codec::{decode_pairs, encode_pairs};
use fourier::complex::ComplexSample;
use fourier::direct::{df_transform, inverse_df_transform};
use fourier::engine::{ff_transform, inverse_ff_transform, LengthError};
use fourier::padding::pad;

fn c(re: f64, im: f64) -> ComplexSample {
    ComplexSample { re_bits: re.to_bits(), im_bits: im.to_bits() }
}

fn re_of(s: ComplexSample) -> f64 {
    f64::from_bits(s.re_bits)
}

fn im_of(s: ComplexSample) -> f64 {
    f64::from_bits(s.im_bits)
}

fn assert_close(got: &[ComplexSample], want: &[(f64, f64)]) {
    assert_eq!(got.len(), want.len());
    for (g, w) in got.iter().zip(want.iter()) {
        assert!(
            (re_of(*g) - w.0).abs() < 1e-9 && (im_of(*g) - w.1).abs() < 1e-9,
            "({}, {}) differs from ({}, {})",
            re_of(*g),
            im_of(*g),
            w.0,
            w.1
        );
    }
}

#[test]
fn padding_to_next_power_of_two() {
    let data = vec![c(1.0, 2.0), c(3.0, 4.0), c(5.0, 6.0)];
    let padded = pad(&data);
    assert_eq!(padded.len(), 4);
    assert_eq!(padded[0], data[0]);
    assert_eq!(padded[1], data[1]);
    assert_eq!(padded[2], data[2]);
    assert_eq!(padded[3], c(0.0, 0.0));

    let five = vec![c(1.0, 0.0); 5];
    assert_eq!(pad(&five).len(), 8);
}

#[test]
fn padding_keeps_power_of_two() {
    let data = vec![c(1.0, 2.0), c(3.0, 4.0), c(5.0, 6.0), c(7.0, 8.0)];
    assert_eq!(pad(&data), data);

    let one = vec![c(9.0, 9.0)];
    assert_eq!(pad(&one), one);

    let empty: Vec<ComplexSample> = Vec::new();
    assert_eq!(pad(&empty), vec![c(0.0, 0.0)]);
}

#[test]
fn base_case_unchanged() {
    let data = vec![c(3.5, -1.25)];
    assert_eq!(ff_transform(&data).unwrap(), data);
    assert_eq!(inverse_ff_transform(&data, 1).unwrap(), data);
    assert_close(&df_transform(&data), &[(3.5, -1.25)]);
    assert_close(&inverse_df_transform(&data), &[(3.5, -1.25)]);
}

#[test]
fn dc_only_signal() {
    let data = vec![c(1.0, 0.0), c(1.0, 0.0), c(1.0, 0.0), c(1.0, 0.0)];
    let waves = ff_transform(&data).unwrap();
    assert_close(&waves, &[(4.0, 0.0), (0.0, 0.0), (0.0, 0.0), (0.0, 0.0)]);
}

#[test]
fn two_point_direct_transform() {
    let data = vec![c(1.0, 0.0), c(0.0, 0.0)];
    assert_close(&df_transform(&data), &[(1.0, 0.0), (1.0, 0.0)]);
}

#[test]
fn length_three_round_trip() {
    let data = vec![c(1.0, 0.0), c(2.0, 0.0), c(3.0, 0.0)];
    let padded = pad(&data);
    assert_eq!(padded.len(), 4);
    let waves = ff_transform(&padded).unwrap();
    let back = inverse_ff_transform(&waves, 3).unwrap();
    assert_close(&back, &[(1.0, 0.0), (2.0, 0.0), (3.0, 0.0)]);
}

#[test]
fn inverse_length_error() {
    let data = vec![c(1.0, 0.0), c(2.0, 0.0), c(3.0, 0.0)];
    assert_eq!(inverse_ff_transform(&data, 3), Err(LengthError { length: 3 }));
    assert_eq!(ff_transform(&data), Err(LengthError { length: 3 }));
    let empty: Vec<ComplexSample> = Vec::new();
    assert_eq!(ff_transform(&empty), Err(LengthError { length: 0 }));
}

#[test]
fn direct_recursive_agreement() {
    let data = vec![
        c(1.0, 0.5),
        c(-2.0, 1.5),
        c(3.25, -0.75),
        c(0.0, 2.0),
        c(-1.5, -1.5),
        c(4.0, 0.25),
        c(2.5, -3.0),
        c(-0.5, 1.0),
    ];
    let direct = df_transform(&data);
    let fast = ff_transform(&data).unwrap();
    for (d, f) in direct.iter().zip(fast.iter()) {
        assert!((re_of(*d) - re_of(*f)).abs() < 1e-9);
        assert!((im_of(*d) - im_of(*f)).abs() < 1e-9);
    }
    let direct_inv = inverse_df_transform(&data);
    let fast_inv = inverse_ff_transform(&data, data.len()).unwrap();
    for (d, f) in direct_inv.iter().zip(fast_inv.iter()) {
        assert!((re_of(*d) - re_of(*f)).abs() < 1e-9);
        assert!((im_of(*d) - im_of(*f)).abs() < 1e-9);
    }
}

#[test]
fn round_trip_padded() {
    let data = vec![c(1.0, 0.0), c(-2.5, 0.0), c(3.75, 0.0), c(0.25, 0.0), c(7.0, 0.0)];
    let padded = pad(&data);
    assert_eq!(padded.len(), 8);
    let waves = ff_transform(&padded).unwrap();
    let back = inverse_ff_transform(&waves, data.len()).unwrap();
    assert_close(
        &back,
        &[(1.0, 0.0), (-2.5, 0.0), (3.75, 0.0), (0.25, 0.0), (7.0, 0.0)],
    );
}

#[test]
fn pairing_round_trip() {
    let bits: Vec<u64> = vec![
        1.0f64.to_bits(),
        2.0f64.to_bits(),
        3.0f64.to_bits(),
    ];
    let (samples, padded) = encode_pairs(&bits);
    assert!(padded);
    assert_eq!(samples, vec![c(1.0, 2.0), c(3.0, 0.0)]);
    assert_eq!(decode_pairs(&samples, padded), bits);

    let even_bits: Vec<u64> = vec![4.0f64.to_bits(), 5.0f64.to_bits()];
    let (samples, padded) = encode_pairs(&even_bits);
    assert!(!padded);
    assert_eq!(samples, vec![c(4.0, 5.0)]);
    assert_eq!(decode_pairs(&samples, padded), even_bits);
}

#[test]
fn direct_round_trip() {
    let data = vec![c(2.0, -1.0), c(0.5, 3.0), c(-4.0, 0.0)];
    let back = inverse_df_transform(&df_transform(&data));
    assert_close(&back, &[(2.0, -1.0), (0.5, 3.0), (-4.0, 0.0)]);
}
