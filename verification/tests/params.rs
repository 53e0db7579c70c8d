//! Parameter defaults, the builder, validation, and the configured
//! distributions' parameter arithmetic.

use basic_transmission::distr::Gamma;
use basic_transmission::error::ModelError;
use basic_transmission::params::IxaParametersBuilder;
use basic_transmission::params::Params;
use basic_transmission::params::ParamsBuilder;
use basic_transmission::ratio::Ratio;
use rand::SeedableRng;
use rand_distr::Distribution;

fn sample_gamma(gamma: &Gamma, rng: &mut rand::rngs::StdRng) -> f64 {
    // The model's rate parameter is the scale of the sampled distribution.
    let shape = gamma.shape();
    let rate = gamma.rate();
    let distr = rand_distr::Gamma::new(
        shape.num as f64 / shape.den as f64,
        rate.num as f64 / rate.den as f64,
    )
    .unwrap();
    distr.sample(rng)
}

#[test]
fn parameters_test_rate_distributions() {
    let params = Params::default();
    let mut rng = rand::rngs::StdRng::seed_from_u64(1);
    sample_gamma(&params.infection_duration, &mut rng);
    assert!(params.infection_duration.rate().eq_ratio(&Ratio::new(2, 1)));
    assert!(params
        .infection_duration
        .scale()
        .eq_ratio(&Ratio::new(1, 2)));
}

#[test]
fn params_test_rate_distributions() {
    let params: Params = Params::builder()
        .infection_duration(Gamma::from_shape_rate(Ratio::new(3, 1), Ratio::new(1, 2)).unwrap())
        .build()
        .unwrap();
    let mut rng = rand::rngs::StdRng::seed_from_u64(1);
    sample_gamma(&params.infection_duration, &mut rng);
    assert!(
        params.infection_duration.scale().eq_ratio(&Ratio::new(2, 1)),
        "scale"
    );
    assert!(
        params
            .infection_duration
            .mean()
            .unwrap()
            .eq_ratio(&Ratio::new(3, 2)),
        "mean"
    );
}

#[test]
fn test_builder_defaults() {
    let params = Params::default();
    assert_eq!(params.population_size, 1000);
    assert!(params.p_initial_incidence.eq_ratio(&Ratio::new(1, 10)));
    assert!(params.p_initial_recovered.eq_ratio(&Ratio::new(0, 1)));
    assert!(params.max_time.eq_ratio(&Ratio::new(100, 1)));
    assert_eq!(params.seed, 42);
}

#[test]
fn test_builder_extend_from_prefers_explicit_values() {
    let explicit = ParamsBuilder::default().population_size(7).seed(9);
    let merged = explicit.extend_from(ParamsBuilder::default());
    let params = merged.build().unwrap();
    assert_eq!(params.population_size, 7);
    assert_eq!(params.seed, 9);
    assert_eq!(params.max_time.num, 100);
}

#[test]
fn test_build_rejects_zero_population() {
    let e = ParamsBuilder::default().population_size(0).build().err();
    assert_eq!(e, Some(ModelError::PopulationSizeZero));
}

#[test]
fn test_build_rejects_out_of_range_proportion() {
    let e = ParamsBuilder::default()
        .p_initial_incidence(Ratio::new(3, 2))
        .build()
        .err();
    assert_eq!(e, Some(ModelError::ProportionOutOfRange));
    let e = ParamsBuilder::default()
        .p_initial_recovered(Ratio::new(-1, 2))
        .build()
        .err();
    assert_eq!(e, Some(ModelError::ProportionOutOfRange));
}

#[test]
fn test_build_rejects_negative_max_time() {
    let e = ParamsBuilder::default()
        .max_time(Ratio::new(-1, 1))
        .build()
        .err();
    assert_eq!(e, Some(ModelError::NegativeMaxTime));
}

#[test]
fn test_build_rejects_zero_seed() {
    let e = ParamsBuilder::default().seed(0).build().err();
    assert_eq!(e, Some(ModelError::SeedZero));
}

#[test]
fn test_gamma_rejects_non_positive_parameters() {
    let e = Gamma::from_shape_rate(Ratio::new(0, 1), Ratio::new(1, 1)).err();
    assert_eq!(e, Some(ModelError::NonPositiveShape));
    let e = Gamma::from_shape_rate(Ratio::new(1, 1), Ratio::new(0, 1)).err();
    assert_eq!(e, Some(ModelError::NonPositiveScale));
    let e = Gamma::from_shape_scale(Ratio::new(1, 1), Ratio::new(-1, 1)).err();
    assert_eq!(e, Some(ModelError::NonPositiveScale));
}

#[test]
fn test_gamma_rate_scale_reciprocal() {
    let g = Gamma::from_shape_scale(Ratio::new(2, 1), Ratio::new(4, 1)).unwrap();
    assert!(g.rate().eq_ratio(&Ratio::new(1, 4)));
    assert!(g.scale().eq_ratio(&Ratio::new(4, 1)));
}
