//! The scaled/shifted view over a base hazard: the composition law, the
//! inverse round trip, and the remaining-duration arithmetic, on concrete
//! values.

use basic_transmission::rate_fn::ConstantRate;
use basic_transmission::rate_fn::InfectiousnessRateFn;
use basic_transmission::rate_fn::ScaledRateFn;
use basic_transmission::ratio::Ratio;

fn base_2_over_10() -> ConstantRate {
    ConstantRate::new(Ratio::from_int(2), Ratio::from_int(10)).unwrap()
}

#[test]
fn test_scaled_rate_shifts_and_scales() {
    let base = base_2_over_10();
    let scaled = ScaledRateFn::new(&base, Ratio::from_int(3), Ratio::from_int(4));
    // rate(2) = base.rate(2 + 4) * 3 = 2 * 3.
    assert!(scaled
        .rate(&Ratio::from_int(2))
        .unwrap()
        .eq_ratio(&Ratio::from_int(6)));
    // Past the base support, the scaled hazard is zero.
    assert!(scaled
        .rate(&Ratio::from_int(7))
        .unwrap()
        .eq_ratio(&Ratio::from_int(0)));
}

#[test]
fn test_scaled_cum_rate_composition() {
    // The composition law on concrete values: for s=3, e=4, t=5,
    // scaled.cum_rate(t) == s * (base.cum_rate(t+e) - base.cum_rate(e)).
    let base = base_2_over_10();
    let scale = Ratio::from_int(3);
    let elapsed = Ratio::from_int(4);
    let t = Ratio::from_int(5);
    let scaled = ScaledRateFn::new(&base, scale, elapsed);

    let left = scaled.cum_rate(&t).unwrap();

    let end = base.cum_rate(&t.checked_add(&elapsed).unwrap()).unwrap();
    let start = base.cum_rate(&elapsed).unwrap();
    let right = end.checked_sub(&start).unwrap().checked_mul(&scale).unwrap();

    assert!(left.eq_ratio(&right));
    // (2*9 - 2*4) * 3 = 30.
    assert!(left.eq_ratio(&Ratio::from_int(30)));
}

#[test]
fn test_scaled_inverse_round_trip() {
    // Inverting the cumulative rate of a time within the support recovers
    // that time exactly.
    let base = base_2_over_10();
    let scaled = ScaledRateFn::new(&base, Ratio::from_int(3), Ratio::from_int(4));
    let t = Ratio::new(5, 2);
    let events = scaled.cum_rate(&t).unwrap();
    let recovered = scaled.inverse_cum_rate(&events).unwrap().unwrap();
    assert!(recovered.eq_ratio(&t));
}

#[test]
fn test_scaled_inverse_exhausts_past_capacity() {
    let base = base_2_over_10();
    let scaled = ScaledRateFn::new(&base, Ratio::from_int(3), Ratio::from_int(4));
    // Remaining capacity is (2*10 - 2*4) * 3 = 36 expected events.
    let at_capacity = scaled.inverse_cum_rate(&Ratio::from_int(36)).unwrap();
    assert!(at_capacity.unwrap().eq_ratio(&Ratio::from_int(6)));
    let past_capacity = scaled.inverse_cum_rate(&Ratio::from_int(37)).unwrap();
    assert_eq!(past_capacity, None);
}

#[test]
fn test_scaled_duration_may_be_negative() {
    let base = base_2_over_10();
    let remaining = ScaledRateFn::new(&base, Ratio::from_int(1), Ratio::from_int(4));
    assert!(remaining
        .infection_duration()
        .unwrap()
        .eq_ratio(&Ratio::from_int(6)));

    // A view already past the base support reports a negative remainder.
    let expired = ScaledRateFn::new(&base, Ratio::from_int(1), Ratio::from_int(12));
    assert!(expired
        .infection_duration()
        .unwrap()
        .eq_ratio(&Ratio::from_int(-2)));
}

#[test]
fn test_zero_scale_admits_no_events() {
    let base = base_2_over_10();
    let scaled = ScaledRateFn::new(&base, Ratio::from_int(0), Ratio::from_int(0));
    assert!(scaled
        .rate(&Ratio::from_int(1))
        .unwrap()
        .eq_ratio(&Ratio::from_int(0)));
    let at_zero = scaled.inverse_cum_rate(&Ratio::from_int(0)).unwrap();
    assert!(at_zero.unwrap().eq_ratio(&Ratio::from_int(0)));
    let at_one = scaled.inverse_cum_rate(&Ratio::from_int(1)).unwrap();
    assert_eq!(at_one, None);
}
