//! End-to-end behaviour of the forecast loop, the infection state machine,
//! and the per-person rate-function registry.

use basic_transmission::error::ModelError;
use basic_transmission::forecast::schedule_recovery;
use basic_transmission::infection_manager::get_elapsed_infection_time;
use basic_transmission::infection_manager::infect_person;
use basic_transmission::infection_manager::recover_person;
use basic_transmission::infection_manager::schedule_infection_loop;
use basic_transmission::infection_manager::InfectionLoopStep;
use basic_transmission::infection_manager::ImportationRate;
use basic_transmission::infection_manager::InfectionRate;
use basic_transmission::infection_status::Status;
use basic_transmission::person::PersonId;
use basic_transmission::rate_fn::ConstantRate;
use basic_transmission::rate_fn::InfectiousnessRateFn;
use basic_transmission::rate_fn::RateFn;
use basic_transmission::rate_fn::RateFnDataContainer;
use basic_transmission::ratio::Ratio;
use basic_transmission::total_infectiousness_multiplier::forecasted_maximum;

#[test]
fn test_end_to_end_constant_rate_run() {
    // A person infected at t=0 with hazard 1 over 5 days, driven with a
    // fixed sequence of unit exponential draws, must recover at exactly
    // t=5, produce forecasts strictly within [0,5], and stop scheduling
    // once the draws exhaust the five expected events.
    let person = PersonId(0);
    let mut registry = RateFnDataContainer::default();
    let mut status = Status::Susceptible;
    let instance = RateFn::ConstantRate(
        ConstantRate::new(Ratio::from_int(1), Ratio::from_int(5)).unwrap(),
    );
    infect_person(
        &mut registry,
        &mut status,
        person,
        instance,
        None,
        Some(Ratio::from_int(0)),
    );
    assert!(status.is_infectious());

    let rate_fn = registry.get_instance(person, InfectionRate).unwrap();
    let recovery_time = schedule_recovery(rate_fn, Ratio::from_int(0)).unwrap();
    assert!(recovery_time.eq_ratio(&Ratio::from_int(5)));

    // Deterministic stand-in for the Exponential(1) stream.
    let draws = [Ratio::from_int(1), Ratio::from_int(2), Ratio::from_int(3)];
    let mut now = Ratio::from_int(0);
    let mut forecast_times: Vec<Ratio> = Vec::new();
    let mut exhausted = false;
    for draw in draws.iter() {
        let step = schedule_infection_loop(&status, rate_fn, forecasted_maximum(person), now, *draw)
            .unwrap();
        match step {
            InfectionLoopStep::ScheduleForecast(f) => {
                // Each forecast falls strictly within the infectious window.
                assert!(Ratio::from_int(0).lt(&f.next_time));
                assert!(f.next_time.lt(&Ratio::from_int(5)));
                forecast_times.push(f.next_time);
                now = f.next_time;
            }
            InfectionLoopStep::Exhausted => {
                exhausted = true;
                break;
            }
        }
    }
    // Draw 1 lands at t=1, draw 2 two units later at t=3, and draw 3
    // would need three more expected events when only two remain.
    assert_eq!(forecast_times.len(), 2);
    assert!(forecast_times[0].eq_ratio(&Ratio::from_int(1)));
    assert!(forecast_times[1].eq_ratio(&Ratio::from_int(3)));
    assert!(exhausted);

    // The independently scheduled recovery fires at exactly t=5.
    recover_person(&mut status, Some(recovery_time)).unwrap();
    match status {
        Status::Recovered(data) => {
            assert!(data.recovery_time.unwrap().eq_ratio(&Ratio::from_int(5)));
            assert!(data.infection_time.unwrap().eq_ratio(&Ratio::from_int(0)));
        }
        _ => panic!("expected the person to be recovered"),
    }
}

#[test]
fn test_loop_requires_infectious_person() {
    let rate_fn = ConstantRate::new(Ratio::from_int(1), Ratio::from_int(5)).unwrap();
    let e = schedule_infection_loop(
        &Status::Susceptible,
        &rate_fn,
        Ratio::from_int(1),
        Ratio::from_int(0),
        Ratio::from_int(1),
    )
    .err();
    assert_eq!(e, Some(ModelError::NotInfectious));
}

#[test]
fn test_elapsed_infection_time() {
    let person = PersonId(3);
    let mut registry = RateFnDataContainer::default();
    let mut status = Status::Susceptible;
    let e = get_elapsed_infection_time(&status, Ratio::from_int(4)).err();
    assert_eq!(e, Some(ModelError::NotInfectious));

    let instance = RateFn::ConstantRate(
        ConstantRate::new(Ratio::from_int(1), Ratio::from_int(5)).unwrap(),
    );
    infect_person(
        &mut registry,
        &mut status,
        person,
        instance,
        Some(PersonId(1)),
        Some(Ratio::new(3, 2)),
    );
    let elapsed = get_elapsed_infection_time(&status, Ratio::from_int(4)).unwrap();
    assert!(elapsed.eq_ratio(&Ratio::new(5, 2)));
}

#[test]
fn test_recover_person_transitions() {
    // Recovering a susceptible person through the normal path fails.
    let mut status = Status::Susceptible;
    let e = recover_person(&mut status, Some(Ratio::from_int(1))).err();
    assert_eq!(e, Some(ModelError::NotInfectious));
    assert!(status.is_susceptible());

    // Seeding an initially recovered person bypasses the check and keeps
    // no metadata.
    recover_person(&mut status, None).unwrap();
    assert!(status.is_recovered());
    assert_eq!(status.infection_time(), None);
    assert_eq!(status.infected_by(), None);

    // Recovering an already recovered person fails.
    let e = recover_person(&mut status, Some(Ratio::from_int(2))).err();
    assert_eq!(e, Some(ModelError::AlreadyRecovered));
}

#[test]
fn test_status_queries() {
    let susceptible = Status::Susceptible;
    assert!(susceptible.is_susceptible());
    assert!(!susceptible.is_incidence());
    assert_eq!(susceptible.infection_time(), None);

    let mut registry = RateFnDataContainer::default();
    let mut status = Status::Susceptible;
    let instance = RateFn::ConstantRate(
        ConstantRate::new(Ratio::from_int(2), Ratio::from_int(3)).unwrap(),
    );
    infect_person(
        &mut registry,
        &mut status,
        PersonId(8),
        instance,
        Some(PersonId(2)),
        Some(Ratio::from_int(1)),
    );
    assert!(status.is_infectious());
    assert!(status.is_incidence());
    assert_eq!(status.infected_by(), Some(PersonId(2)));

    // A person seeded infectious without a time is not an incidence.
    let seeded = {
        let mut s = Status::Susceptible;
        let g = RateFn::ConstantRate(
            ConstantRate::new(Ratio::from_int(2), Ratio::from_int(3)).unwrap(),
        );
        infect_person(&mut registry, &mut s, PersonId(9), g, None, None);
        s
    };
    assert!(seeded.is_infectious());
    assert!(!seeded.is_incidence());
}

#[test]
fn test_registry_distinct_kinds_and_misses() {
    // The registry returns the correct, distinct instance for each kind a
    // person was assigned, and fails (returns nothing) for a kind never
    // assigned rather than defaulting.
    let person = PersonId(5);
    let mut registry = RateFnDataContainer::default();
    assert!(registry.get_instance(person, InfectionRate).is_none());

    let first = RateFn::ConstantRate(
        ConstantRate::new(Ratio::from_int(1), Ratio::from_int(5)).unwrap(),
    );
    registry.add_instance(person, InfectionRate, first);
    let got = registry.get_instance(person, InfectionRate).unwrap();
    match got {
        RateFn::ConstantRate(c) => {
            assert!(c.infection_duration().unwrap().eq_ratio(&Ratio::from_int(5)));
        }
    }

    // Another person's entry stays unassigned.
    assert!(registry.get_instance(PersonId(6), InfectionRate).is_none());

    // Re-assigning overwrites the mapping.
    let second = RateFn::ConstantRate(
        ConstantRate::new(Ratio::from_int(2), Ratio::from_int(7)).unwrap(),
    );
    registry.add_instance(person, InfectionRate, second);
    let got = registry.get_instance(person, InfectionRate).unwrap();
    match got {
        RateFn::ConstantRate(c) => {
            assert!(c.infection_duration().unwrap().eq_ratio(&Ratio::from_int(7)));
        }
    }
}

#[test]
fn test_registry_two_kinds_on_one_person() {
    // Assigning two different kinds to the same person and looking each
    // up returns the correct, distinct instance; a kind never assigned
    // has no entry.
    let person = PersonId(4);
    let mut registry = RateFnDataContainer::default();
    let intrinsic = RateFn::ConstantRate(
        ConstantRate::new(Ratio::from_int(1), Ratio::from_int(5)).unwrap(),
    );
    let imported = RateFn::ConstantRate(
        ConstantRate::new(Ratio::new(1, 4), Ratio::from_int(30)).unwrap(),
    );
    registry.add_instance(person, InfectionRate, intrinsic);
    assert!(registry.get_instance(person, ImportationRate).is_none());
    registry.add_instance(person, ImportationRate, imported);

    let got = registry.get_instance(person, InfectionRate).unwrap();
    match got {
        RateFn::ConstantRate(c) => {
            assert!(c.infection_duration().unwrap().eq_ratio(&Ratio::from_int(5)));
            assert!(c.rate(&Ratio::from_int(0)).unwrap().eq_ratio(&Ratio::from_int(1)));
        }
    }
    let got = registry.get_instance(person, ImportationRate).unwrap();
    match got {
        RateFn::ConstantRate(c) => {
            assert!(c.infection_duration().unwrap().eq_ratio(&Ratio::from_int(30)));
            assert!(c.rate(&Ratio::from_int(0)).unwrap().eq_ratio(&Ratio::new(1, 4)));
        }
    }
}
