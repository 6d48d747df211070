//! Tests of the easing catalog: endpoint behaviour, range, and exact
//! fixed-point values at the halfway point.

use animation_engine::easing::{eval, Easing};
use animation_engine::PROGRESS_SCALE;

const ALL: [Easing; 10] = [
    Easing::Linear,
    Easing::QuadIn,
    Easing::QuadOut,
    Easing::QuadInOut,
    Easing::CubicIn,
    Easing::CubicOut,
    Easing::CubicInOut,
    Easing::SineIn,
    Easing::SineOut,
    Easing::SineInOut,
];

#[test]
fn every_curve_maps_zero_to_zero_and_one_to_one() {
    for e in ALL {
        assert_eq!(eval(e, 0), 0, "{:?} at 0", e);
        assert_eq!(eval(e, PROGRESS_SCALE), PROGRESS_SCALE, "{:?} at 1", e);
    }
}

#[test]
fn every_curve_stays_in_range() {
    for e in ALL {
        let mut p: u64 = 0;
        while p <= PROGRESS_SCALE {
            assert!(eval(e, p) <= PROGRESS_SCALE, "{:?} at {}", e, p);
            p += 62_500;
        }
    }
}

#[test]
fn linear_is_the_identity() {
    assert_eq!(eval(Easing::Linear, 250_000), 250_000);
    assert_eq!(eval(Easing::Linear, 987_654), 987_654);
}

#[test]
fn quad_curves_match_their_formulas_halfway() {
    // p^2: 0.5 -> 0.25; 1 - (1-p)^2: 0.5 -> 0.75; in-out: 0.5 -> 0.5.
    assert_eq!(eval(Easing::QuadIn, 500_000), 250_000);
    assert_eq!(eval(Easing::QuadOut, 500_000), 750_000);
    assert_eq!(eval(Easing::QuadInOut, 500_000), 500_000);
    // in-out below the midpoint: 2 p^2 at 0.25 -> 0.125.
    assert_eq!(eval(Easing::QuadInOut, 250_000), 125_000);
}

#[test]
fn cubic_curves_match_their_formulas_halfway() {
    // p^3: 0.5 -> 0.125; 1 - (1-p)^3: 0.5 -> 0.875; in-out: 0.5 -> 0.5.
    assert_eq!(eval(Easing::CubicIn, 500_000), 125_000);
    assert_eq!(eval(Easing::CubicOut, 500_000), 875_000);
    assert_eq!(eval(Easing::CubicInOut, 500_000), 500_000);
    // in-out below the midpoint: 4 p^3 at 0.25 -> 0.0625.
    assert_eq!(eval(Easing::CubicInOut, 250_000), 62_500);
}

#[test]
fn sine_out_matches_bhaskara_halfway() {
    // sin(pi/4) by Bhaskara: x = 1/4, 16 x (1-x) / (5 - 4 x (1-x))
    // = 3 / 4.25 = 0.70588..., against the true 0.70710...
    assert_eq!(eval(Easing::SineOut, 500_000), 705_882);
    // sine-in mirrors sine-out.
    assert_eq!(
        eval(Easing::SineIn, 500_000),
        PROGRESS_SCALE - eval(Easing::SineOut, 500_000)
    );
}
