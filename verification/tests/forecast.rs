//! The forecast/evaluate/thinning core: exact acceptance probabilities,
//! the forecast-bound invariant, and the drawn next-event times.

use basic_transmission::error::ModelError;
use basic_transmission::forecast::evaluate_forecast;
use basic_transmission::forecast::get_forecast;
use basic_transmission::forecast::resolve_forecast;
use basic_transmission::forecast::schedule_recovery;
use basic_transmission::forecast::ForecastEvaluation;
use basic_transmission::rate_fn::ConstantRate;
use basic_transmission::ratio::Ratio;
use rand::RngExt;
use rand::SeedableRng;

fn unit_rate_fn(rate: i64, duration: i64) -> ConstantRate {
    ConstantRate::new(Ratio::from_int(rate), Ratio::from_int(duration)).unwrap()
}

#[test]
fn test_get_forecast_draws_inverse_time() {
    // rate 2 over 10 days, already 1 day in: a draw of 4 expected events
    // lands 2 days later, at hazard 2.
    let rate_fn = unit_rate_fn(2, 10);
    let forecast = get_forecast(
        &rate_fn,
        Ratio::from_int(1),
        Ratio::from_int(1),
        Ratio::from_int(5),
        Ratio::from_int(4),
    )
    .unwrap()
    .unwrap();
    assert!(forecast.next_time.eq_ratio(&Ratio::from_int(7)));
    assert!(forecast
        .forecasted_total_infectiousness
        .eq_ratio(&Ratio::from_int(2)));
}

#[test]
fn test_get_forecast_exhausted_past_capacity() {
    // rate 1 over 5 days: total capacity 5; a draw of 6 has no time.
    let rate_fn = unit_rate_fn(1, 5);
    let forecast = get_forecast(
        &rate_fn,
        Ratio::from_int(1),
        Ratio::from_int(0),
        Ratio::from_int(0),
        Ratio::from_int(6),
    )
    .unwrap();
    assert!(forecast.is_none());
}

#[test]
fn test_evaluate_forecast_accepts_at_bound() {
    // The actual rate equals the forecast: unconditional acceptance.
    let rate_fn = unit_rate_fn(2, 10);
    let outcome = evaluate_forecast(
        &rate_fn,
        Ratio::from_int(1),
        Ratio::from_int(3),
        Ratio::from_int(2),
    )
    .unwrap();
    assert!(matches!(outcome, ForecastEvaluation::Accept));
    assert!(resolve_forecast(&outcome, false));
}

#[test]
fn test_evaluate_forecast_rejection_probability_is_exact_ratio() {
    // Actual rate 2 against a forecast bound of 5: accept with exactly 2/5.
    let rate_fn = unit_rate_fn(2, 10);
    let outcome = evaluate_forecast(
        &rate_fn,
        Ratio::from_int(1),
        Ratio::from_int(3),
        Ratio::from_int(5),
    )
    .unwrap();
    match outcome {
        ForecastEvaluation::AcceptWithProbability(p) => {
            assert!(p.eq_ratio(&Ratio::new(2, 5)));
        }
        ForecastEvaluation::Accept => panic!("expected a probabilistic acceptance"),
    }
}

#[test]
fn test_evaluate_forecast_acceptance_frequency_converges() {
    // Thinning accepts with exactly current/forecast = 1/2; the observed
    // acceptance frequency over many draws must converge to it.
    let rate_fn = unit_rate_fn(1, 10);
    let outcome = evaluate_forecast(
        &rate_fn,
        Ratio::from_int(1),
        Ratio::from_int(3),
        Ratio::from_int(2),
    )
    .unwrap();
    let p = match outcome {
        ForecastEvaluation::AcceptWithProbability(p) => p,
        ForecastEvaluation::Accept => panic!("expected a probabilistic acceptance"),
    };
    assert!(p.eq_ratio(&Ratio::new(1, 2)));

    let mut rng = rand::rngs::StdRng::seed_from_u64(2024);
    let trials = 100_000u32;
    let mut accepted = 0u32;
    let mut i = 0u32;
    while i < trials {
        let draw = rng.random_ratio(p.num as u32, p.den as u32);
        if resolve_forecast(&outcome, draw) {
            accepted += 1;
        }
        i += 1;
    }
    let frequency = accepted as f64 / trials as f64;
    assert!((frequency - 0.5).abs() < 0.01, "frequency {frequency}");
}

#[test]
fn test_invariant_fires_only_beyond_tolerance() {
    let rate_fn = unit_rate_fn(2, 10);
    // The actual rate (2) exceeds the forecast (1) beyond tolerance.
    let e = evaluate_forecast(
        &rate_fn,
        Ratio::from_int(1),
        Ratio::from_int(3),
        Ratio::from_int(1),
    )
    .err();
    assert_eq!(e, Some(ModelError::ForecastInvariantViolated));

    // An actual rate exactly at forecast + 1e-10: still no violation, and
    // the forecast is accepted outright.
    let at_tolerance = ConstantRate::new(
        Ratio::new(20_000_000_001, 10_000_000_000),
        Ratio::from_int(10),
    )
    .unwrap();
    let outcome = evaluate_forecast(
        &at_tolerance,
        Ratio::from_int(1),
        Ratio::from_int(3),
        Ratio::from_int(2),
    )
    .unwrap();
    assert!(matches!(outcome, ForecastEvaluation::Accept));

    // One grain beyond the tolerance: the invariant fires.
    let beyond_tolerance = ConstantRate::new(
        Ratio::new(20_000_000_002, 10_000_000_000),
        Ratio::from_int(10),
    )
    .unwrap();
    let e = evaluate_forecast(
        &beyond_tolerance,
        Ratio::from_int(1),
        Ratio::from_int(3),
        Ratio::from_int(2),
    )
    .err();
    assert_eq!(e, Some(ModelError::ForecastInvariantViolated));

    // The actual rate never trips the check when it is at or below the
    // forecast.
    let outcome = evaluate_forecast(
        &rate_fn,
        Ratio::from_int(1),
        Ratio::from_int(3),
        Ratio::from_int(2),
    )
    .unwrap();
    assert!(matches!(outcome, ForecastEvaluation::Accept));
}

#[test]
fn test_schedule_recovery_adds_full_duration() {
    let rate_fn = unit_rate_fn(3, 7);
    let recovery = schedule_recovery(&rate_fn, Ratio::new(5, 2)).unwrap();
    assert!(recovery.eq_ratio(&Ratio::new(19, 2)));
}
