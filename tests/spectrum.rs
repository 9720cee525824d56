use spectral::binary32;
use spectral::spectrum::{IsSpectrum, Rgb, BLACK_THRESHOLD};

fn rgb(r: f32, g: f32, b: f32) -> Rgb {
    Rgb::new(r.to_bits(), g.to_bits(), b.to_bits())
}

fn channels(c: Rgb) -> (f32, f32, f32) {
    (f32::from_bits(c.r), f32::from_bits(c.g), f32::from_bits(c.b))
}

#[test]
fn zero_is_black_and_one_is_not() {
    assert!(Rgb::zero().is_black());
    assert!(!Rgb::one().is_black());
}

#[test]
fn zero_and_one_hold_their_channel_values() {
    assert_eq!(channels(Rgb::zero()), (0.0, 0.0, 0.0));
    assert_eq!(channels(Rgb::one()), (1.0, 1.0, 1.0));
}

#[test]
fn black_threshold_is_one_ten_thousandth() {
    assert_eq!(f32::from_bits(BLACK_THRESHOLD), 0.0001);
    assert!(rgb(0.00009, 0.0, 0.00005).is_black());
    assert!(!rgb(0.0001, 0.0, 0.0).is_black());
    assert!(!rgb(0.0, 0.0, 0.5).is_black());
}

#[test]
fn negative_channels_are_black() {
    assert!(rgb(-3.0, -0.5, 0.0).is_black());
}

#[test]
fn nan_in_any_channel_is_detected() {
    assert!(rgb(f32::NAN, 0.0, 0.0).is_nan());
    assert!(rgb(0.0, f32::NAN, 0.0).is_nan());
    assert!(rgb(0.0, 0.0, -f32::NAN).is_nan());
    assert!(!rgb(0.0, 0.0, 0.0).is_nan());
}

#[test]
fn nan_value_can_be_black_or_not() {
    assert!(rgb(f32::NAN, 0.0, 0.0).is_black());
    assert!(!rgb(f32::NAN, 5.0, 0.0).is_black());
    assert!(rgb(f32::NAN, 5.0, 0.0).is_nan());
}

#[test]
fn max_channel_picks_the_largest() {
    assert_eq!(f32::from_bits(rgb(0.2, 0.9, 0.1).max_channel()), 0.9);
    assert_eq!(f32::from_bits(rgb(-1.0, -0.5, -2.0).max_channel()), -0.5);
    assert_eq!(f32::from_bits(rgb(0.3, 0.1, 4.0).max_channel()), 4.0);
}

#[test]
fn max_channel_passes_over_a_leading_nan() {
    assert_eq!(f32::from_bits(rgb(f32::NAN, 0.25, 0.5).max_channel()), 0.5);
}

#[test]
fn rgb_round_trip_is_identity() {
    let c = rgb(0.25, 1.5, -0.75);
    let back = Rgb::from_rgb(c).to_rgb();
    assert_eq!((back.r, back.g, back.b), (c.r, c.g, c.b));
}

#[test]
fn saturated_clamps_each_channel() {
    let s = rgb(1.5, -0.2, 0.5).saturated();
    assert_eq!(channels(s), (1.0, 0.0, 0.5));
    assert!(s == rgb(1.0, 0.0, 0.5));
}

#[test]
fn saturated_sends_nan_to_zero_and_infinity_to_one() {
    let s = rgb(f32::NAN, f32::INFINITY, f32::NEG_INFINITY).saturated();
    assert_eq!(channels(s), (0.0, 1.0, 0.0));
    assert!(!s.is_nan());
}

#[test]
fn infinite_channels_are_not_nan() {
    let inf = 1.0f32 / 0.0;
    let c = rgb(inf, inf, -inf);
    assert!(!c.is_nan());
    assert!(!c.is_black());
}

#[test]
fn equality_follows_ieee() {
    assert!(rgb(0.0, 1.0, 2.0) == rgb(-0.0, 1.0, 2.0));
    assert!(rgb(0.0, 1.0, 2.0) != rgb(0.0, 1.0, 2.5));
    let n = rgb(f32::NAN, 0.0, 0.0);
    assert!(n != n);
}

#[test]
fn comparisons_follow_ieee() {
    let b = |x: f32| x.to_bits();
    assert!(binary32::lt(b(-1.0), b(-0.5)));
    assert!(binary32::lt(b(-0.0), b(1e-30)));
    assert!(binary32::le(b(-0.0), b(0.0)));
    assert!(binary32::eq(b(-0.0), b(0.0)));
    assert!(!binary32::lt(b(f32::NAN), b(1.0)));
    assert!(!binary32::le(b(1.0), b(f32::NAN)));
    assert!(binary32::lt(b(f32::MAX), b(f32::INFINITY)));
    assert!(binary32::lt(b(f32::NEG_INFINITY), b(f32::MIN)));
    assert!(binary32::is_nan(b(-f32::NAN)));
    assert!(!binary32::is_nan(b(f32::NEG_INFINITY)));
}

#[test]
fn partial_max_and_min_follow_argument_order_on_nan() {
    let b = |x: f32| x.to_bits();
    assert_eq!(binary32::partial_max(b(f32::NAN), b(2.0)), b(2.0));
    assert!(binary32::is_nan(binary32::partial_max(b(2.0), b(f32::NAN))));
    assert_eq!(binary32::partial_min(b(3.0), b(2.0)), b(2.0));
    assert_eq!(binary32::partial_min(b(-0.0), b(0.0)), b(-0.0));
    assert_eq!(binary32::clamped01(b(0.75)), b(0.75));
    assert_eq!(binary32::clamped01(b(-0.0)), b(-0.0));
}
