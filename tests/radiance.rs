use raytracer::radiance::{de_nan, is_nan};

fn bits(c: [f32; 3]) -> [u32; 3] {
    [c[0].to_bits(), c[1].to_bits(), c[2].to_bits()]
}

fn floats(b: [u32; 3]) -> [f32; 3] {
    [f32::from_bits(b[0]), f32::from_bits(b[1]), f32::from_bits(b[2])]
}

#[test]
fn is_nan_matches_the_float_test() {
    let samples = [
        0.0f32,
        -0.0,
        1.0,
        -2.5,
        f32::INFINITY,
        f32::NEG_INFINITY,
        f32::NAN,
        -f32::NAN,
        f32::MIN_POSITIVE,
        f32::MAX,
        f32::from_bits(1),
        f32::from_bits(0x7f80_0001),
        f32::from_bits(0xffff_ffff),
    ];
    for x in samples {
        assert_eq!(is_nan(x.to_bits()), x.is_nan(), "{:#x}", x.to_bits());
    }
}

#[test]
fn is_nan_infinity_is_not_nan() {
    assert!(!is_nan(0x7f80_0000));
    assert!(!is_nan(0xff80_0000));
    assert!(is_nan(0x7fc0_0000));
}

#[test]
fn de_nan_zero_over_zero_becomes_zero() {
    let zero = 0.0f32;
    let pdf = zero;
    let ratio = zero / pdf;
    let color = [0.25 * ratio, 0.5, 0.75];
    let scrubbed = floats(de_nan(&bits(color)));
    assert_eq!(scrubbed[0].to_bits(), 0);
    assert_eq!(scrubbed[0], 0.0);
    assert_eq!(scrubbed[1], 0.5);
    assert_eq!(scrubbed[2], 0.75);
}

#[test]
fn de_nan_nan_deep_in_a_chain_is_zeroed() {
    // A 0/0 weight multiplied through several bounces stays NaN until the scrub.
    let mut throughput = [1.0f32, 1.0, 1.0];
    let degenerate = 0.0f32 / 0.0f32;
    for bounce in 0..5 {
        for c in throughput.iter_mut() {
            *c *= 0.8;
        }
        if bounce == 3 {
            throughput[1] *= degenerate;
        }
    }
    assert!(throughput[1].is_nan());
    let out = floats(de_nan(&bits(throughput)));
    assert_eq!(out[1], 0.0);
    assert!(!out[1].is_sign_negative());
    assert_eq!(out[0], throughput[0]);
    assert_eq!(out[2], throughput[2]);
}

#[test]
fn de_nan_keeps_every_other_value_bit_for_bit() {
    let color = [f32::INFINITY, -0.0, f32::NEG_INFINITY];
    assert_eq!(de_nan(&bits(color)), bits(color));
}

#[test]
fn de_nan_all_channels_nan() {
    let color = [f32::NAN, -f32::NAN, f32::from_bits(0x7f80_0001)];
    assert_eq!(de_nan(&bits(color)), [0, 0, 0]);
}
