use kerr_black_hole::ieee::{Double, Single};

fn d(x: f64) -> Double {
    Double::from_bits(x.to_bits())
}

#[test]
fn double_order_matches_native_order() {
    let samples = [
        0.0,
        -0.0,
        1.0,
        -1.0,
        1e-12,
        -1e-12,
        1e-300,
        5e-324,
        -5e-324,
        1000.0,
        f64::MAX,
        f64::MIN,
        f64::INFINITY,
        f64::NEG_INFINITY,
        f64::NAN,
        std::f64::consts::PI,
    ];
    for &a in samples.iter() {
        for &b in samples.iter() {
            assert_eq!(d(a).lt(d(b)), a < b);
            assert_eq!(d(a).le(d(b)), a <= b);
            assert_eq!(d(a).gt(d(b)), a > b);
            assert_eq!(d(a).ge(d(b)), a >= b);
            assert_eq!(d(a).eq_number(d(b)), a == b);
        }
        assert_eq!(d(a).is_nan(), a.is_nan());
        assert_eq!(d(a).is_finite(), a.is_finite());
        assert_eq!(d(a).is_positive(), a > 0.0);
        assert_eq!(d(a).is_negative(), a < 0.0);
        assert_eq!(d(a).is_zero(), a == 0.0);
        assert_eq!(d(a).is_sign_negative(), a.is_sign_negative());
        assert_eq!(d(a).abs().to_bits(), a.abs().to_bits());
    }
}

#[test]
fn single_from_u8_matches_native_conversion() {
    for n in 0..=255u8 {
        assert_eq!(Single::from_u8(n).to_bits(), (n as f32).to_bits());
    }
}

#[test]
fn single_from_double_matches_native_rounding() {
    let mut samples: Vec<f64> = vec![
        0.0,
        -0.0,
        1.0,
        -1.0,
        0.1,
        0.3,
        6.0,
        2.3208830059,
        8.7173522355,
        1e-12,
        1e38,
        3.4028234663852886e38,
        3.4028235677973366e38,
        3.4028235677973362e38,
        3.402823669209385e38,
        1e39,
        -1e300,
        f64::MAX,
        f64::INFINITY,
        f64::NEG_INFINITY,
        1.1754943508222875e-38,
        1.1754942106924411e-38,
        1e-40,
        1.401298464324817e-45,
        7.006492321624085e-46,
        7.006492321624086e-46,
        7.0064923216240e-46,
        2.1e-45,
        2.1019476964872256e-45,
        1e-46,
        1e-300,
        5e-324,
        16777216.0,
        16777217.0,
        16777218.0,
        16777219.0,
        1.0000000596046448,
        1.0000000596046447,
        1.000000059604645,
        1.0000001788139343,
    ];
    // A deterministic walk over bit patterns of every size.
    let mut state: u64 = 0x9E37_79B9_7F4A_7C15;
    for _ in 0..200_000 {
        state ^= state << 13;
        state ^= state >> 7;
        state ^= state << 17;
        samples.push(f64::from_bits(state));
        // Doubles near the range of singles, where rounding matters most.
        let exponent = 1023 - 160 + (state >> 52) % 300;
        samples.push(f64::from_bits((state & 0x800F_FFFF_FFFF_FFFF) | (exponent << 52)));
        // Doubles on or next to a tie between two singles.
        let tie = (state & 0xFFFF_FFFF_E000_0000) | 0x1000_0000;
        for bits in [tie - 1, tie, tie + 1] {
            samples.push(f64::from_bits((bits & 0x800F_FFFF_FFFF_FFFF) | (exponent << 52)));
        }
    }
    for x in samples {
        let got = Single::from_double(d(x)).to_bits();
        let want = x as f32;
        if want.is_nan() {
            assert!(f32::from_bits(got).is_nan());
        } else {
            assert_eq!(got, want.to_bits(), "rounding {:e} ({:#x})", x, x.to_bits());
        }
    }
    assert!(f32::from_bits(Single::from_double(d(f64::NAN)).to_bits()).is_nan());
    assert!(f32::from_bits(Single::from_double(Double::from_bits(0x7FF0_0000_0000_0001)).to_bits()).is_nan());
    assert!(f32::from_bits(Single::from_double(Double::from_bits(0xFFF8_0000_0000_0000)).to_bits()).is_nan());
}
