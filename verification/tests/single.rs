use ember::single::{Single, FIVE, HUNDRED, ONE, TEN, TENTH, TWENTY, TWO, ZERO};

fn s(x: f32) -> Single {
    Single { bits: x.to_bits() }
}

fn samples() -> Vec<f32> {
    vec![
        0.0,
        -0.0,
        1.0,
        -1.0,
        0.1,
        0.5,
        10.0,
        20.0,
        -60.0,
        f32::MIN_POSITIVE,
        f32::from_bits(1),
        -f32::from_bits(1),
        f32::MAX,
        f32::MIN,
        f32::INFINITY,
        f32::NEG_INFINITY,
        f32::NAN,
        f32::from_bits(0xFFC0_0001),
    ]
}

#[test]
fn constants_are_the_patterns_of_their_numbers() {
    assert_eq!(ZERO, 0.0f32.to_bits());
    assert_eq!(ONE, 1.0f32.to_bits());
    assert_eq!(TWO, 2.0f32.to_bits());
    assert_eq!(FIVE, 5.0f32.to_bits());
    assert_eq!(TEN, 10.0f32.to_bits());
    assert_eq!(HUNDRED, 100.0f32.to_bits());
    assert_eq!(TENTH, 0.1f32.to_bits());
    assert_eq!(TWENTY, 20.0f32.to_bits());
}

#[test]
fn comparisons_are_those_of_floating_point() {
    for a in samples() {
        assert_eq!(s(a).is_nan(), a.is_nan());
        assert_eq!(s(a).is_finite(), a.is_finite());
        for b in samples() {
            assert_eq!(s(a).lt(s(b)), a < b, "{a} < {b}");
            assert_eq!(s(a).le(s(b)), a <= b, "{a} <= {b}");
        }
    }
}

#[test]
fn clamping_is_that_of_floating_point() {
    for a in samples() {
        assert_eq!(s(a).clamp(s(0.0), s(1.0)).bits, a.clamp(0.0, 1.0).to_bits(), "{a}");
        assert_eq!(s(a).clamp(s(0.1), s(20.0)).bits, a.clamp(0.1, 20.0).to_bits(), "{a}");
    }
}

#[test]
fn a_floor_is_kept() {
    assert_eq!(s(3.0).at_least(s(10.0)), s(10.0));
    assert_eq!(s(12.5).at_least(s(10.0)), s(12.5));
    assert_eq!(s(f32::NAN).at_least(s(10.0)), s(10.0));
    assert_eq!(s(f32::NEG_INFINITY).at_least(s(10.0)), s(10.0));
}

#[test]
fn only_one_pattern_is_one() {
    for a in samples() {
        assert_eq!(s(a).bits == ONE, a == 1.0);
    }
}

#[test]
fn clamped_values_lie_between() {
    for a in samples() {
        let c = s(a).clamp(s(0.1), s(20.0));
        assert!(a.is_nan() || (s(0.1).le(c) && c.le(s(20.0))));
    }
}
