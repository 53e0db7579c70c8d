//! The constant hazard function: construction validation and the exact
//! values of its rate, cumulative rate, and inverse cumulative rate.

use basic_transmission::rate_fn::ConstantRate;
use basic_transmission::rate_fn::InfectiousnessRateFn;
use basic_transmission::ratio::Ratio;

#[test]
fn test_constant_rate_errors_r_negative() {
    let e = ConstantRate::new(Ratio::new(-1, 1), Ratio::new(10, 1)).err();
    match e {
        Some(err) => {
            assert_eq!(err.message(), "The rate of infection must be non-negative.");
        }
        None => {
            panic!("Expected an error. Instead, created a constant rate struct with no errors.")
        }
    }
}

#[test]
fn test_constant_rate_errors_infection_duration_negative() {
    let e = ConstantRate::new(Ratio::new(1, 1), Ratio::new(-1, 1)).err();
    match e {
        Some(err) => {
            assert_eq!(err.message(), "The duration of infection must be non-negative.");
        }
        None => {
            panic!("Expected an error. Instead, created a constant rate struct with no errors.")
        }
    }
}

#[test]
fn test_rate() {
    let r = ConstantRate::new(Ratio::new(2, 1), Ratio::new(10, 1)).unwrap();
    assert!(r
        .rate(&Ratio::new(5, 1))
        .unwrap()
        .eq_ratio(&Ratio::from_int(2)));
    assert!(r
        .rate(&Ratio::new(11, 1))
        .unwrap()
        .eq_ratio(&Ratio::from_int(0)));
}

#[test]
fn test_cum_rate() {
    let r = ConstantRate::new(Ratio::new(2, 1), Ratio::new(10, 1)).unwrap();
    assert!(r
        .cum_rate(&Ratio::new(5, 1))
        .unwrap()
        .eq_ratio(&Ratio::from_int(10)));
    assert!(r
        .cum_rate(&Ratio::new(11, 1))
        .unwrap()
        .eq_ratio(&Ratio::from_int(20)));
}

#[test]
fn test_inverse_cum_rate() {
    let r = ConstantRate::new(Ratio::new(2, 1), Ratio::new(10, 1)).unwrap();
    let at_10 = r.inverse_cum_rate(&Ratio::new(10, 1)).unwrap();
    assert!(at_10.unwrap().eq_ratio(&Ratio::from_int(5)));
    let at_20 = r.inverse_cum_rate(&Ratio::new(20, 1)).unwrap();
    assert!(at_20.unwrap().eq_ratio(&Ratio::from_int(10)));
    let at_21 = r.inverse_cum_rate(&Ratio::new(21, 1)).unwrap();
    assert_eq!(at_21, None);
}

#[test]
fn test_infection_duration() {
    let r = ConstantRate::new(Ratio::new(2, 1), Ratio::new(10, 1)).unwrap();
    assert!(r
        .infection_duration()
        .unwrap()
        .eq_ratio(&Ratio::from_int(10)));
}

#[test]
fn test_zero_rate_admits_no_events() {
    let r = ConstantRate::new(Ratio::new(0, 1), Ratio::new(10, 1)).unwrap();
    let at_zero = r.inverse_cum_rate(&Ratio::new(0, 1)).unwrap();
    assert!(at_zero.unwrap().eq_ratio(&Ratio::from_int(0)));
    let at_one = r.inverse_cum_rate(&Ratio::new(1, 1)).unwrap();
    assert_eq!(at_one, None);
    assert!(r
        .cum_rate(&Ratio::new(7, 1))
        .unwrap()
        .eq_ratio(&Ratio::from_int(0)));
}

#[test]
fn test_cum_rate_overflow_reported() {
    let r = ConstantRate::new(Ratio::new(i64::MAX, 1), Ratio::new(i64::MAX, 1)).unwrap();
    let result = r.cum_rate(&Ratio::new(2, 1));
    assert!(result.is_err());
}
