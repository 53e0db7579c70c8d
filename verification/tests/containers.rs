//! The typed-slot containers, the lazy index assignment, the run
//! statistics, the seeding-proportion validation, and property queries.

use basic_transmission::error::ModelError;
use basic_transmission::infection_manager::ImportationRate;
use basic_transmission::infection_manager::InfectionRate;
use basic_transmission::infection_status::InfectionData;
use basic_transmission::infection_status::Status;
use basic_transmission::output_manager::Counts;
use basic_transmission::person::PersonId;
use basic_transmission::person_vec::PersonVec;
use basic_transmission::population_manager::validate_proportions;
use basic_transmission::query::lookup_value;
use basic_transmission::query::MatchPerson;
use basic_transmission::query::PropertyValue;
use basic_transmission::query::ToOrderedMap;
use basic_transmission::query::Query;
use basic_transmission::rate_fn::RateFnCategory;
use basic_transmission::ratio::Ratio;
use basic_transmission::type_index::maybe_init_type_index;
use basic_transmission::type_index::maybe_register_type_index_category;
use basic_transmission::type_index::TypeIndexMap;

#[test]
fn test_person_vec_set_get() {
    let mut v: PersonVec<u32> = PersonVec::new();
    assert!(v.get(PersonId(0)).is_none());
    v.set(PersonId(3), 7);
    assert_eq!(v.get(PersonId(3)), Some(&7));
    assert!(v.get(PersonId(2)).is_none());
    v.set(PersonId(3), 9);
    assert_eq!(v.get(PersonId(3)), Some(&9));
    if let Some(slot) = v.get_mut(PersonId(3)) {
        *slot = 11;
    }
    assert_eq!(v.get(PersonId(3)), Some(&11));
}

#[test]
fn test_type_index_map_roundtrip() {
    let mut map: TypeIndexMap<RateFnCategory, &'static str> = TypeIndexMap::with_capacity(2);
    assert!(map.get::<InfectionRate>().is_none());
    map.insert::<InfectionRate>("intrinsic");
    map.insert::<ImportationRate>("imported");
    assert_eq!(map.get::<InfectionRate>(), Some(&"intrinsic"));
    assert_eq!(map.get::<ImportationRate>(), Some(&"imported"));

    let values = map.values();
    assert_eq!(values, vec![&"intrinsic", &"imported"]);

    let removed = map.remove::<InfectionRate>();
    assert_eq!(removed, Some("intrinsic"));
    assert!(map.get::<InfectionRate>().is_none());
    assert_eq!(map.get::<ImportationRate>(), Some(&"imported"));

    let entry = map.get_mut_or_insert::<InfectionRate>("fresh");
    assert_eq!(*entry, "fresh");
    *entry = "replaced";
    assert_eq!(map.get::<InfectionRate>(), Some(&"replaced"));
    let entry = map.get_mut_or_insert::<InfectionRate>("ignored");
    assert_eq!(*entry, "replaced");

    if let Some(slot) = map.get_mut::<ImportationRate>() {
        *slot = "changed";
    }
    assert_eq!(map.get::<ImportationRate>(), Some(&"changed"));
}

#[test]
fn test_maybe_init_type_index_claims_once() {
    let mut next: usize = 0;
    let mut holder_a: usize = usize::MAX;
    let mut holder_b: usize = usize::MAX;

    // First use claims the next index and consumes the counter.
    assert_eq!(maybe_init_type_index(&mut next, &mut holder_a), 0);
    assert_eq!(next, 1);
    // A second use of the same holder takes the fast path.
    assert_eq!(maybe_init_type_index(&mut next, &mut holder_a), 0);
    assert_eq!(next, 1);
    // A different holder claims the following index.
    assert_eq!(maybe_init_type_index(&mut next, &mut holder_b), 1);
    assert_eq!(next, 2);

    let mut count: usize = 0;
    maybe_register_type_index_category(&mut count);
    maybe_register_type_index_category(&mut count);
    assert_eq!(count, 2);
}

#[test]
fn test_counts_daily_incidence() {
    let mut counts = Counts::new(&Ratio::from_int(10));
    counts.add_infection(Status::Infectious(InfectionData {
        infection_time: Some(Ratio::new(5, 2)),
        infected_by: Some(PersonId(1)),
        recovery_time: None,
    }));
    counts.add_infection(Status::Infectious(InfectionData {
        infection_time: Some(Ratio::new(9, 4)),
        infected_by: None,
        recovery_time: None,
    }));
    counts.add_infection(Status::Infectious(InfectionData {
        infection_time: None,
        infected_by: None,
        recovery_time: None,
    }));
    counts.add_forecast_rejection();

    // Two of the three infections carry a time, both within day 2.
    assert_eq!(counts.total_infections, 3);
    assert_eq!(counts.forecasts_rejected, 1);
    assert_eq!(counts.daily_incidence, vec![0, 0, 2]);
}

#[test]
fn test_counts_summary_figures() {
    let mut counts = Counts::new(&Ratio::from_int(1));
    assert!(counts.forecast_efficiency().eq_ratio(&Ratio::from_int(0)));

    let mut i = 0;
    while i < 3 {
        counts.add_infection(Status::Infectious(InfectionData {
            infection_time: None,
            infected_by: None,
            recovery_time: None,
        }));
        i += 1;
    }
    counts.add_forecast_rejection();
    // 1 - 1/(3+1) = 3/4.
    assert!(counts.forecast_efficiency().eq_ratio(&Ratio::new(3, 4)));
    // 3 infections over 12 people.
    assert!(counts.attack_rate(12).eq_ratio(&Ratio::new(1, 4)));
}

#[test]
fn test_validate_proportions() {
    let ok: Vec<Ratio> = vec![Ratio::new(1, 10), Ratio::new(0, 1), Ratio::new(9, 10)];
    assert!(validate_proportions(&ok).is_ok());

    let empty: Vec<Ratio> = Vec::new();
    assert!(validate_proportions(&empty).is_ok());

    let too_large: Vec<Ratio> = vec![Ratio::new(3, 4), Ratio::new(1, 2)];
    assert_eq!(
        validate_proportions(&too_large).err(),
        Some(ModelError::ProportionSumTooLarge)
    );

    let overflowing: Vec<Ratio> = vec![
        Ratio::new(1, i64::MAX),
        Ratio::new(1, i64::MAX - 1),
    ];
    assert_eq!(
        validate_proportions(&overflowing).err(),
        Some(ModelError::Overflow)
    );
}

#[test]
fn test_query_matching() {
    let props: Vec<PropertyValue> = vec![
        PropertyValue { kind: 1, value: 10 },
        PropertyValue { kind: 2, value: 20 },
        PropertyValue { kind: 1, value: 99 },
    ];
    // The first entry for a kind wins.
    assert_eq!(lookup_value(&props, 1), Some(10));
    assert_eq!(lookup_value(&props, 3), None);

    let matching = Query::new(vec![
        PropertyValue { kind: 2, value: 20 },
        PropertyValue { kind: 1, value: 10 },
    ]);
    assert!(matching.match_person(&props));

    let mismatched = Query::new(vec![
        PropertyValue { kind: 1, value: 10 },
        PropertyValue { kind: 2, value: 21 },
    ]);
    assert!(!mismatched.match_person(&props));

    let missing_kind = Query::new(vec![PropertyValue { kind: 5, value: 0 }]);
    assert!(!missing_kind.match_person(&props));

    // The empty query matches anyone.
    let empty = Query::new(Vec::new());
    assert!(empty.match_person(&props));
}

#[test]
fn test_query_canonical_map() {
    let query = Query::new(vec![
        PropertyValue { kind: 9, value: 90 },
        PropertyValue { kind: 2, value: 20 },
        PropertyValue { kind: 9, value: 91 },
        PropertyValue { kind: 4, value: 40 },
    ]);
    let canonical = query.to_map();
    // Sorted by kind, one entry per kind, the first occurrence winning.
    assert_eq!(
        canonical,
        vec![
            PropertyValue { kind: 2, value: 20 },
            PropertyValue { kind: 4, value: 40 },
            PropertyValue { kind: 9, value: 90 },
        ]
    );

    // Two orderings of the same constraints share a canonical form.
    let other = Query::new(vec![
        PropertyValue { kind: 4, value: 40 },
        PropertyValue { kind: 9, value: 90 },
        PropertyValue { kind: 2, value: 20 },
    ]);
    assert_eq!(other.to_map(), canonical);
}
