use photonforge::binary32::{check_nan, clamp, less_than, rank_of, INFINITY_BITS, SIGN_BIT};

fn samples() -> Vec<f32> {
    vec![
        0.0,
        -0.0,
        1.0,
        -1.0,
        1.5,
        -1.5,
        1.5000001,
        -1.5000001,
        0.17453292,
        1.5707964,
        3.0e38,
        -3.0e38,
        1.0e-45,
        -1.0e-45,
        f32::MIN_POSITIVE,
        f32::MAX,
        f32::MIN,
        f32::INFINITY,
        f32::NEG_INFINITY,
        f32::NAN,
        -f32::NAN,
        f32::from_bits(0x7f80_0001),
        f32::from_bits(0xffff_ffff),
    ]
}

#[test]
fn nan_is_told_apart() {
    for x in samples() {
        assert_eq!(check_nan(x.to_bits()), x.is_nan(), "{x}");
    }
    assert!(!check_nan(INFINITY_BITS));
    assert!(check_nan(INFINITY_BITS + 1));
    assert!(!check_nan(SIGN_BIT | INFINITY_BITS));
    assert!(check_nan((SIGN_BIT | INFINITY_BITS) + 1));
}

#[test]
fn less_than_agrees_with_the_numbers() {
    for a in samples() {
        for b in samples() {
            assert_eq!(less_than(a.to_bits(), b.to_bits()), a < b, "{a} < {b}");
        }
    }
}

#[test]
fn rank_of_exact_values() {
    assert_eq!(rank_of(0), 0);
    assert_eq!(rank_of(SIGN_BIT), 0);
    assert_eq!(rank_of(1), 1);
    assert_eq!(rank_of(SIGN_BIT + 1), -1);
    assert_eq!(rank_of(0x3fc0_0000), 0x3fc0_0000);
    assert_eq!(rank_of(0xbfc0_0000), -0x3fc0_0000);
    assert_eq!(rank_of(u32::MAX), -0x7fff_ffff);
}

#[test]
fn rank_orders_as_the_numbers_do() {
    for a in samples() {
        for b in samples() {
            if a.is_nan() || b.is_nan() {
                continue;
            }
            assert_eq!(rank_of(a.to_bits()) < rank_of(b.to_bits()), a < b, "{a} {b}");
            assert_eq!(rank_of(a.to_bits()) == rank_of(b.to_bits()), a == b, "{a} {b}");
        }
    }
}

#[test]
fn clamp_agrees_with_the_numbers() {
    let bounds = [(-1.5f32, 1.5f32), (0.17453292, 1.5707964), (0.0, 0.0), (-0.0, 0.0), (-2.0, -1.0)];
    for (lo, hi) in bounds {
        for x in samples() {
            let got = clamp(x.to_bits(), lo.to_bits(), hi.to_bits());
            let want = x.clamp(lo, hi);
            if want.is_nan() {
                assert_eq!(got, x.to_bits(), "a NaN stays as it is");
            } else {
                assert_eq!(got, want.to_bits(), "clamp({x}, {lo}, {hi})");
            }
        }
    }
}

#[test]
fn clamp_exact_values() {
    let lo = (-1.5f32).to_bits();
    let hi = 1.5f32.to_bits();
    assert_eq!(clamp(2.0f32.to_bits(), lo, hi), 0x3fc0_0000);
    assert_eq!(clamp((-2.0f32).to_bits(), lo, hi), 0xbfc0_0000);
    assert_eq!(clamp(0.25f32.to_bits(), lo, hi), 0x3e80_0000);
    assert_eq!(clamp(f32::INFINITY.to_bits(), lo, hi), hi);
    assert_eq!(clamp(f32::NEG_INFINITY.to_bits(), lo, hi), lo);
    assert_eq!(clamp(0x7fc0_0000, lo, hi), 0x7fc0_0000);
    assert_eq!(clamp(lo, lo, hi), lo);
    assert_eq!(clamp(hi, lo, hi), hi);
}

#[test]
fn clamp_keeps_the_sign_of_zero() {
    let zero = 0.0f32.to_bits();
    let minus_zero = (-0.0f32).to_bits();
    assert_eq!(clamp(minus_zero, zero, 1.0f32.to_bits()), minus_zero);
    assert_eq!(clamp(zero, minus_zero, 1.0f32.to_bits()), zero);
}

#[test]
fn clamp_twice_is_clamp_once() {
    let lo = (-1.5f32).to_bits();
    let hi = 1.5f32.to_bits();
    for x in samples() {
        let once = clamp(x.to_bits(), lo, hi);
        assert_eq!(clamp(once, lo, hi), once);
    }
}
