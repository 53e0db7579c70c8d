//! Per-person infection status and its transition rules.

use vstd::prelude::*;

use crate::error::ModelError;
use crate::person::PersonId;
use crate::ratio::Ratio;

verus! {

/// Metadata carried by a non-susceptible status. For people seeded into a
/// state at the start of the simulation, the fields may all be absent.
#[derive(Clone, Copy, Debug)]
pub struct InfectionData {
    pub infection_time: Option<Ratio>,
    pub infected_by: Option<PersonId>,
    pub recovery_time: Option<Ratio>,
}

impl InfectionData {
    /// Any time carried is a valid rational.
    pub open spec fn wf(&self) -> bool {
        &&& (self.infection_time matches Some(t) ==> t.wf())
        &&& (self.recovery_time matches Some(t) ==> t.wf())
    }
}

/// Infection status of a person. People start `Susceptible`, become
/// `Infectious` only through an explicit infection event, and move to
/// `Recovered` only through an explicit recovery event; they never revert
/// to `Susceptible`.
#[derive(Clone, Copy, Debug)]
pub enum Status {
    Susceptible,
    Infectious(InfectionData),
    Recovered(InfectionData),
}

impl Status {
    /// Any time carried is a valid rational.
    pub open spec fn wf(&self) -> bool {
        match self {
            Status::Susceptible => true,
            Status::Infectious(data) => data.wf(),
            Status::Recovered(data) => data.wf(),
        }
    }

    /// The infection time recorded in the status, if any.
    pub open spec fn spec_infection_time(&self) -> Option<Ratio> {
        match self {
            Status::Infectious(data) => data.infection_time,
            Status::Recovered(data) => data.infection_time,
            Status::Susceptible => None,
        }
    }

    /// The infector recorded in the status, if any.
    pub open spec fn spec_infected_by(&self) -> Option<PersonId> {
        match self {
            Status::Infectious(data) => data.infected_by,
            Status::Recovered(data) => data.infected_by,
            Status::Susceptible => None,
        }
    }

    /// Whether the person has never been infected.
    pub fn is_susceptible(&self) -> (r: bool)
        ensures
            r == (self is Susceptible),
    {
        matches!(self, Status::Susceptible)
    }

    /// Whether the person is infectious with a recorded infection time
    /// (that is, infected during the run rather than seeded).
    pub fn is_incidence(&self) -> (r: bool)
        ensures
            r == (self is Infectious && self.spec_infection_time() is Some),
    {
        self.is_infectious() && self.infection_time().is_some()
    }

    /// The recorded infection time, if any.
    pub fn infection_time(&self) -> (r: Option<Ratio>)
        ensures
            r == self.spec_infection_time(),
    {
        match self {
            Status::Infectious(InfectionData { infection_time, .. }) => *infection_time,
            Status::Recovered(InfectionData { infection_time, .. }) => *infection_time,
            Status::Susceptible => None,
        }
    }

    /// The recorded infector, if any.
    pub fn infected_by(&self) -> (r: Option<PersonId>)
        ensures
            r == self.spec_infected_by(),
    {
        match self {
            Status::Infectious(InfectionData { infected_by, .. }) => *infected_by,
            Status::Recovered(InfectionData { infected_by, .. }) => *infected_by,
            Status::Susceptible => None,
        }
    }

    /// Whether the person is currently infectious.
    pub fn is_infectious(&self) -> (r: bool)
        ensures
            r == (self is Infectious),
    {
        matches!(self, Status::Infectious { .. })
    }

    /// Whether the person has recovered.
    pub fn is_recovered(&self) -> (r: bool)
        ensures
            r == (self is Recovered),
    {
        matches!(self, Status::Recovered { .. })
    }

    /// The normal recovery transition: an infectious person becomes
    /// recovered at `recovery_time`, carrying the infection metadata
    /// forward. Fails with `AlreadyRecovered` on a recovered person and
    /// with `NotInfectious` on a susceptible one — those indicate caller
    /// logic errors against the state machine.
    pub fn to_recovered(self, recovery_time: Ratio) -> (r: Result<Status, ModelError>)
        ensures
            self matches Status::Infectious(data) ==> r == Ok::<Status, ModelError>(
                Status::Recovered(
                    (InfectionData {
                        infection_time: data.infection_time,
                        infected_by: data.infected_by,
                        recovery_time: Some(recovery_time),
                    }),
                ),
            ),
            self is Recovered ==> r == Err::<Status, ModelError>(ModelError::AlreadyRecovered),
            self is Susceptible ==> r == Err::<Status, ModelError>(ModelError::NotInfectious),
    {
        match self {
            Status::Infectious(InfectionData { infection_time, infected_by, .. }) => Ok(
                Status::Recovered(
                    InfectionData {
                        infection_time,
                        infected_by,
                        recovery_time: Some(recovery_time),
                    },
                ),
            ),
            Status::Recovered { .. } => Err(ModelError::AlreadyRecovered),
            Status::Susceptible => Err(ModelError::NotInfectious),
        }
    }
}

} // verus!
