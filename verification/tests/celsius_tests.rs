use cpu_temp_tray::celsius::Celsius;

fn samples() -> Vec<f32> {
    vec![
        0.0,
        -0.0,
        f32::MIN_POSITIVE,
        -f32::MIN_POSITIVE,
        1.0e-45,
        -1.0e-45,
        0.5,
        0.999_999_9,
        1.0,
        1.5,
        1.999_999_9,
        2.0,
        36.6,
        41.25,
        74.0,
        74.999_99,
        75.0,
        89.5,
        90.0,
        100.0,
        127.999_99,
        128.0,
        254.999_98,
        255.0,
        255.999_98,
        256.0,
        300.0,
        1.0e9,
        f32::MAX,
        f32::INFINITY,
        -0.5,
        -1.0,
        -36.6,
        -273.15,
        f32::MIN,
        f32::NEG_INFINITY,
        f32::NAN,
        -f32::NAN,
        f32::from_bits(0x7f80_0001),
        f32::from_bits(0xffff_ffff),
    ]
}

fn celsius(value: f32) -> Celsius {
    Celsius::from_bits(value.to_bits())
}

#[test]
fn bits_round_trip() {
    for value in samples() {
        assert_eq!(celsius(value).to_bits(), value.to_bits());
        assert_eq!(celsius(value).bits, value.to_bits());
    }
}

#[test]
fn is_nan_agrees_with_the_number() {
    for value in samples() {
        assert_eq!(celsius(value).is_nan(), value.is_nan(), "{value}");
    }
}

#[test]
fn warmer_than_agrees_with_the_comparison_of_numbers() {
    for a in samples() {
        for b in samples() {
            assert_eq!(celsius(a).warmer_than(&celsius(b)), a > b, "{a} > {b}");
        }
    }
}

#[test]
fn warmer_than_is_strict() {
    assert!(celsius(75.5).warmer_than(&celsius(75.0)));
    assert!(!celsius(75.0).warmer_than(&celsius(75.0)));
    assert!(!celsius(75.0).warmer_than(&celsius(75.5)));
    assert!(celsius(-1.0).warmer_than(&celsius(-2.0)));
    assert!(celsius(1.0).warmer_than(&celsius(-2.0)));
}

#[test]
fn both_zeros_are_equally_warm() {
    assert!(!celsius(0.0).warmer_than(&celsius(-0.0)));
    assert!(!celsius(-0.0).warmer_than(&celsius(0.0)));
}

#[test]
fn nothing_is_warmer_than_not_a_number() {
    for value in samples() {
        assert!(!celsius(value).warmer_than(&celsius(f32::NAN)));
        assert!(!celsius(f32::NAN).warmer_than(&celsius(value)));
    }
}

#[test]
fn whole_degrees_agree_with_the_cast() {
    for value in samples() {
        assert_eq!(celsius(value).whole_degrees(), value as u8, "{value}");
    }
}

#[test]
fn whole_degrees_of_every_exponent() {
    let mut bits: u32 = 0;
    loop {
        let value = f32::from_bits(bits);
        assert_eq!(celsius(value).whole_degrees(), value as u8, "{bits:#x}");
        let low = f32::from_bits(bits | 0x7f_ffff);
        assert_eq!(celsius(low).whole_degrees(), low as u8, "{bits:#x}");
        let middle = f32::from_bits(bits | 0x2a_aaaa);
        assert_eq!(celsius(middle).whole_degrees(), middle as u8, "{bits:#x}");
        if bits == 0xff80_0000 {
            break;
        }
        bits += 0x80_0000;
    }
}

#[test]
fn whole_degrees_exact_values() {
    assert_eq!(celsius(36.6).whole_degrees(), 36);
    assert_eq!(celsius(74.99).whole_degrees(), 74);
    assert_eq!(celsius(75.0).whole_degrees(), 75);
    assert_eq!(celsius(0.99).whole_degrees(), 0);
    assert_eq!(celsius(255.5).whole_degrees(), 255);
    assert_eq!(celsius(256.0).whole_degrees(), 255);
    assert_eq!(celsius(f32::INFINITY).whole_degrees(), 255);
    assert_eq!(celsius(-3.5).whole_degrees(), 0);
    assert_eq!(celsius(f32::NAN).whole_degrees(), 0);
}
