//! The model's configuration: a plain parameter struct, a builder whose
//! fields may each be absent, per-field validators, and defaults. Loading
//! a builder from a file or the command line is the driver's job.

use vstd::prelude::*;

use crate::distr::gamma::Gamma;
use crate::error::ModelError;
use crate::ratio::Rat;
use crate::ratio::Ratio;
use crate::ratio::rat_le;
use crate::ratio::rat_one;
use crate::ratio::rat_zero;

verus! {

/// The model's parameters, validated.
#[derive(Clone, Copy, Debug)]
pub struct Params {
    /// The number of people in the population.
    pub population_size: usize,
    /// The proportion of initial people who are infectious when the
    /// population is seeded, as a number between 0 and 1.
    pub p_initial_incidence: Ratio,
    /// The proportion of people that are initially recovered (fully
    /// immune), as a number between 0 and 1.
    pub p_initial_recovered: Ratio,
    /// The maximum run time of the simulation; even if further infections
    /// are scheduled, the simulation stops at this time.
    pub max_time: Ratio,
    /// The random seed for the simulation.
    pub seed: u64,
    /// The distribution of infection rates across the population.
    pub infection_rate: Gamma,
    /// The distribution of infection durations across the population.
    pub infection_duration: Gamma,
}

impl Params {
    /// Every validator holds.
    pub open spec fn wf(&self) -> bool {
        &&& self.population_size != 0
        &&& self.p_initial_incidence.wf()
        &&& rat_le(rat_zero(), self.p_initial_incidence@)
        &&& rat_le(self.p_initial_incidence@, rat_one())
        &&& self.p_initial_recovered.wf()
        &&& rat_le(rat_zero(), self.p_initial_recovered@)
        &&& rat_le(self.p_initial_recovered@, rat_one())
        &&& self.max_time.wf()
        &&& rat_le(rat_zero(), self.max_time@)
        &&& self.seed != 0
        &&& self.infection_rate.wf()
        &&& self.infection_duration.wf()
    }

    /// A builder initialized with the default values.
    pub fn builder() -> (r: ParamsBuilder)
        ensures
            r == spec_default_builder(),
    {
        ParamsBuilder::default()
    }
}

/// A `Params` under construction: each field may still be absent, in
/// which case its default applies at build time.
#[derive(Clone, Copy, Debug)]
pub struct ParamsBuilder {
    pub population_size: Option<usize>,
    pub p_initial_incidence: Option<Ratio>,
    pub p_initial_recovered: Option<Ratio>,
    pub max_time: Option<Ratio>,
    pub seed: Option<u64>,
    pub infection_rate: Option<Gamma>,
    pub infection_duration: Option<Gamma>,
}

/// The builder holding every default value: a population of 1000 with a
/// tenth initially infectious, nobody initially recovered, a horizon of
/// 100 time units, seed 42, and Gamma-distributed rates and durations.
pub open spec fn spec_default_builder() -> ParamsBuilder {
    ParamsBuilder {
        population_size: Some(1000usize),
        p_initial_incidence: Some(Ratio { num: 1, den: 10 }),
        p_initial_recovered: Some(Ratio { num: 0, den: 1 }),
        max_time: Some(Ratio { num: 100, den: 1 }),
        seed: Some(42u64),
        infection_rate: Some(
            Gamma {
                params: crate::distr::gamma::GammaParams::Rate {
                    shape: Ratio { num: 2, den: 1 },
                    rate: Ratio { num: 1, den: 1 },
                },
            },
        ),
        infection_duration: Some(
            Gamma {
                params: crate::distr::gamma::GammaParams::Rate {
                    shape: Ratio { num: 1, den: 2 },
                    rate: Ratio { num: 2, den: 1 },
                },
            },
        ),
    }
}

impl Default for ParamsBuilder {
    /// The builder holding every default value.
    fn default() -> (r: ParamsBuilder)
        ensures
            r == spec_default_builder(),
    {
        ParamsBuilder {
            population_size: Some(1000),
            p_initial_incidence: Some(Ratio::new(1, 10)),
            p_initial_recovered: Some(Ratio::new(0, 1)),
            max_time: Some(Ratio::new(100, 1)),
            seed: Some(42),
            infection_rate: Some(
                Gamma {
                    params: crate::distr::gamma::GammaParams::Rate {
                        shape: Ratio::new(2, 1),
                        rate: Ratio::new(1, 1),
                    },
                },
            ),
            infection_duration: Some(
                Gamma {
                    params: crate::distr::gamma::GammaParams::Rate {
                        shape: Ratio::new(1, 2),
                        rate: Ratio::new(2, 1),
                    },
                },
            ),
        }
    }
}

/// Field-wise merging and validated building of parameters.
pub trait IxaParametersBuilder<P>: Sized {
    /// What the builder's fields must satisfy before building.
    spec fn builder_wf(&self) -> bool;

    /// Fills every absent field of `self` from `other`.
    fn extend_from(self, other: Self) -> Self;

    /// Validates the fields and builds the parameter struct.
    fn build(self) -> Result<P, ModelError>
        requires
            self.builder_wf(),
    ;
}

impl ParamsBuilder {
    /// The Gamma parameters held are valid.
    pub open spec fn gammas_wf(&self) -> bool {
        &&& (self.infection_rate matches Some(g) ==> g.wf())
        &&& (self.infection_duration matches Some(g) ==> g.wf())
    }

    /// The times and proportions held are valid rationals.
    pub open spec fn ratios_wf(&self) -> bool {
        &&& (self.p_initial_incidence matches Some(p) ==> p.wf())
        &&& (self.p_initial_recovered matches Some(p) ==> p.wf())
        &&& (self.max_time matches Some(t) ==> t.wf())
    }

    /// The parameters the builder would produce, each absent field
    /// replaced by its default.
    pub open spec fn spec_build(&self) -> Params {
        Params {
            population_size: match self.population_size {
                Some(v) => v,
                None => 1000usize,
            },
            p_initial_incidence: match self.p_initial_incidence {
                Some(v) => v,
                None => Ratio { num: 1, den: 10 },
            },
            p_initial_recovered: match self.p_initial_recovered {
                Some(v) => v,
                None => Ratio { num: 0, den: 1 },
            },
            max_time: match self.max_time {
                Some(v) => v,
                None => Ratio { num: 100, den: 1 },
            },
            seed: match self.seed {
                Some(v) => v,
                None => 42u64,
            },
            infection_rate: match self.infection_rate {
                Some(v) => v,
                None => Gamma {
                    params: crate::distr::gamma::GammaParams::Rate {
                        shape: Ratio { num: 2, den: 1 },
                        rate: Ratio { num: 1, den: 1 },
                    },
                },
            },
            infection_duration: match self.infection_duration {
                Some(v) => v,
                None => Gamma {
                    params: crate::distr::gamma::GammaParams::Rate {
                        shape: Ratio { num: 1, den: 2 },
                        rate: Ratio { num: 2, den: 1 },
                    },
                },
            },
        }
    }

    /// Sets the population size.
    pub fn population_size(self, value: usize) -> (r: Self)
        ensures
            r == (ParamsBuilder { population_size: Some(value), ..self }),
    {
        ParamsBuilder { population_size: Some(value), ..self }
    }

    /// Sets the initial incidence proportion.
    pub fn p_initial_incidence(self, value: Ratio) -> (r: Self)
        ensures
            r == (ParamsBuilder { p_initial_incidence: Some(value), ..self }),
    {
        ParamsBuilder { p_initial_incidence: Some(value), ..self }
    }

    /// Sets the initially recovered proportion.
    pub fn p_initial_recovered(self, value: Ratio) -> (r: Self)
        ensures
            r == (ParamsBuilder { p_initial_recovered: Some(value), ..self }),
    {
        ParamsBuilder { p_initial_recovered: Some(value), ..self }
    }

    /// Sets the simulation horizon.
    pub fn max_time(self, value: Ratio) -> (r: Self)
        ensures
            r == (ParamsBuilder { max_time: Some(value), ..self }),
    {
        ParamsBuilder { max_time: Some(value), ..self }
    }

    /// Sets the random seed.
    pub fn seed(self, value: u64) -> (r: Self)
        ensures
            r == (ParamsBuilder { seed: Some(value), ..self }),
    {
        ParamsBuilder { seed: Some(value), ..self }
    }

    /// Sets the infection-rate distribution.
    pub fn infection_rate(self, value: Gamma) -> (r: Self)
        ensures
            r == (ParamsBuilder { infection_rate: Some(value), ..self }),
    {
        ParamsBuilder { infection_rate: Some(value), ..self }
    }

    /// Sets the infection-duration distribution.
    pub fn infection_duration(self, value: Gamma) -> (r: Self)
        ensures
            r == (ParamsBuilder { infection_duration: Some(value), ..self }),
    {
        ParamsBuilder { infection_duration: Some(value), ..self }
    }
}

impl IxaParametersBuilder<Params> for ParamsBuilder {
    /// The rationals and Gamma parameters held are valid.
    open spec fn builder_wf(&self) -> bool {
        self.gammas_wf() && self.ratios_wf()
    }

    /// Fills every absent field of `self` from `other`, field by field.
    fn extend_from(self, other: Self) -> (r: Self)
        ensures
            r.population_size == (if self.population_size is Some {
                self.population_size
            } else {
                other.population_size
            }),
            r.p_initial_incidence == (if self.p_initial_incidence is Some {
                self.p_initial_incidence
            } else {
                other.p_initial_incidence
            }),
            r.p_initial_recovered == (if self.p_initial_recovered is Some {
                self.p_initial_recovered
            } else {
                other.p_initial_recovered
            }),
            r.max_time == (if self.max_time is Some {
                self.max_time
            } else {
                other.max_time
            }),
            r.seed == (if self.seed is Some {
                self.seed
            } else {
                other.seed
            }),
            r.infection_rate == (if self.infection_rate is Some {
                self.infection_rate
            } else {
                other.infection_rate
            }),
            r.infection_duration == (if self.infection_duration is Some {
                self.infection_duration
            } else {
                other.infection_duration
            }),
    {
        ParamsBuilder {
            population_size: match self.population_size {
                Some(v) => Some(v),
                None => other.population_size,
            },
            p_initial_incidence: match self.p_initial_incidence {
                Some(v) => Some(v),
                None => other.p_initial_incidence,
            },
            p_initial_recovered: match self.p_initial_recovered {
                Some(v) => Some(v),
                None => other.p_initial_recovered,
            },
            max_time: match self.max_time {
                Some(v) => Some(v),
                None => other.max_time,
            },
            seed: match self.seed {
                Some(v) => Some(v),
                None => other.seed,
            },
            infection_rate: match self.infection_rate {
                Some(v) => Some(v),
                None => other.infection_rate,
            },
            infection_duration: match self.infection_duration {
                Some(v) => Some(v),
                None => other.infection_duration,
            },
        }
    }

    /// Validates every field (defaults applied where absent) and builds
    /// the parameters. Each error is returned exactly when its validator
    /// is the first to fail, in field order.
    fn build(self) -> (r: Result<Params, ModelError>)
        ensures
            r is Ok <==> self.spec_build().wf(),
            r matches Ok(p) ==> p == self.spec_build(),
            ({
                let built = self.spec_build();
                &&& (r == Err::<Params, ModelError>(ModelError::PopulationSizeZero) <==> built.population_size == 0)
                &&& (r == Err::<Params, ModelError>(ModelError::ProportionOutOfRange) <==> built.population_size != 0 && !(rat_le(rat_zero(), built.p_initial_incidence@) && rat_le(built.p_initial_incidence@, rat_one()) && rat_le(rat_zero(), built.p_initial_recovered@) && rat_le(built.p_initial_recovered@, rat_one())))
                &&& (r == Err::<Params, ModelError>(ModelError::NegativeMaxTime) <==> built.population_size != 0 && rat_le(rat_zero(), built.p_initial_incidence@) && rat_le(built.p_initial_incidence@, rat_one()) && rat_le(rat_zero(), built.p_initial_recovered@) && rat_le(built.p_initial_recovered@, rat_one()) && !rat_le(rat_zero(), built.max_time@))
                &&& (r == Err::<Params, ModelError>(ModelError::SeedZero) <==> built.population_size != 0 && rat_le(rat_zero(), built.p_initial_incidence@) && rat_le(built.p_initial_incidence@, rat_one()) && rat_le(rat_zero(), built.p_initial_recovered@) && rat_le(built.p_initial_recovered@, rat_one()) && rat_le(rat_zero(), built.max_time@) && built.seed == 0)
            }),
    {
        let defaults = ParamsBuilder::default();
        let population_size = match self.population_size {
            Some(v) => v,
            None => 1000,
        };
        let p_initial_incidence = match self.p_initial_incidence {
            Some(v) => v,
            None => Ratio::new(1, 10),
        };
        let p_initial_recovered = match self.p_initial_recovered {
            Some(v) => v,
            None => Ratio::new(0, 1),
        };
        let max_time = match self.max_time {
            Some(v) => v,
            None => Ratio::new(100, 1),
        };
        let seed = match self.seed {
            Some(v) => v,
            None => 42,
        };
        let infection_rate = match self.infection_rate {
            Some(v) => v,
            None => match defaults.infection_rate {
                Some(g) => g,
                None => {
                    proof {
                        assert(false);
                    }
                    return Err(ModelError::MissingParameter);
                },
            },
        };
        let infection_duration = match self.infection_duration {
            Some(v) => v,
            None => match defaults.infection_duration {
                Some(g) => g,
                None => {
                    proof {
                        assert(false);
                    }
                    return Err(ModelError::MissingParameter);
                },
            },
        };

        if population_size == 0 {
            return Err(ModelError::PopulationSizeZero);
        }
        let zero = Ratio::new(0, 1);
        let one = Ratio::new(1, 1);
        if !(zero.le(&p_initial_incidence) && p_initial_incidence.le(&one)) {
            return Err(ModelError::ProportionOutOfRange);
        }
        if !(zero.le(&p_initial_recovered) && p_initial_recovered.le(&one)) {
            return Err(ModelError::ProportionOutOfRange);
        }
        if !zero.le(&max_time) {
            return Err(ModelError::NegativeMaxTime);
        }
        if seed == 0 {
            return Err(ModelError::SeedZero);
        }

        Ok(
            Params {
                population_size,
                p_initial_incidence,
                p_initial_recovered,
                max_time,
                seed,
                infection_rate,
                infection_duration,
            },
        )
    }
}

impl Default for Params {
    /// The parameters built from every default value.
    fn default() -> (r: Params)
        ensures
            r == spec_default_builder().spec_build(),
            r.wf(),
    {
        match ParamsBuilder::default().build() {
            Ok(p) => p,
            Err(_) => {
                proof {
                    assert(false);
                }
                Params {
                    population_size: 1,
                    p_initial_incidence: Ratio::new(0, 1),
                    p_initial_recovered: Ratio::new(0, 1),
                    max_time: Ratio::new(0, 1),
                    seed: 1,
                    infection_rate: Gamma {
                        params: crate::distr::gamma::GammaParams::Rate {
                            shape: Ratio::new(1, 1),
                            rate: Ratio::new(1, 1),
                        },
                    },
                    infection_duration: Gamma {
                        params: crate::distr::gamma::GammaParams::Rate {
                            shape: Ratio::new(1, 1),
                            rate: Ratio::new(1, 1),
                        },
                    },
                }
            },
        }
    }
}

} // verus!
