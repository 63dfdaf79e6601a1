use animkit::fx::FX_ONE;
use animkit::trig::{cos_fx, sin_fx, wrap_angle, FX_HALF_PI, FX_PI, FX_TAU};

/// The rational sine is exact at the cardinal points of the half turn.
#[test]
fn sin_exact_at_cardinal_points() {
    assert_eq!(sin_fx(0), 0);
    assert_eq!(sin_fx(FX_HALF_PI), FX_ONE);
    assert_eq!(sin_fx(FX_PI), 0);
    assert_eq!(sin_fx(FX_PI + FX_HALF_PI), -FX_ONE);
    assert_eq!(sin_fx(-FX_HALF_PI), -FX_ONE);
    assert_eq!(sin_fx(FX_TAU), 0);
    assert_eq!(cos_fx(0), FX_ONE);
}

/// Across ten radians either way, the approximation stays within a few
/// thousandths of the real sine.
#[test]
fn sin_tracks_reference_sine() {
    let mut x = -10_000_000i64;
    while x <= 10_000_000 {
        let got = sin_fx(x) as f64 / 1e6;
        let want = (x as f64 / 1e6).sin();
        assert!(
            (got - want).abs() < 0.01,
            "sin({}) = {} vs {}",
            x,
            got,
            want
        );
        x += 37_000;
    }
}

/// The sine never leaves [-1, 1].
#[test]
fn sin_stays_bounded() {
    let mut x = -100_000_000i64;
    while x <= 100_000_000 {
        let s = sin_fx(x);
        assert!(-FX_ONE <= s && s <= FX_ONE);
        x += 999_983;
    }
}

/// Angle reduction lands in [0, tau) and respects the period.
#[test]
fn wrap_angle_reduces_to_one_turn() {
    assert_eq!(wrap_angle(0), 0);
    assert_eq!(wrap_angle(FX_TAU), 0);
    assert_eq!(wrap_angle(FX_TAU + 123), 123);
    assert_eq!(wrap_angle(-1), FX_TAU - 1);
    assert_eq!(wrap_angle(-FX_TAU), 0);
    let w = wrap_angle(7 * FX_TAU + FX_PI);
    assert_eq!(w, FX_PI);
}
