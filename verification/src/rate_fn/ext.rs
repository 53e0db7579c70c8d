//! The closed set of hazard-function kinds a person can be assigned, and
//! the per-person, per-kind registry that stores assigned instances.

use vstd::prelude::*;

use crate::error::ModelError;
use crate::person::PersonId;
use crate::person_vec::PersonVec;
use crate::ratio::Rat;
use crate::ratio::Ratio;
use crate::rate_fn::infectiousness_rate_fn::InfectiousnessRateFn;
use crate::rate_fn::constant_rate::ConstantRate;
use crate::type_index::TypeIndex;
use crate::type_index::TypeIndexCategory;
use crate::type_index::TypeIndexMap;

verus! {

/// The category of rate-function kinds: each kind of hazard a person can
/// be assigned occupies one index in this category's space.
pub struct RateFnCategory;

impl TypeIndexCategory for RateFnCategory {
    fn category_id() -> u64 {
        0
    }
}

/// A hazard function of any supported shape.
pub enum RateFn {
    ConstantRate(ConstantRate),
}

impl InfectiousnessRateFn for RateFn {
    open spec fn wf(&self) -> bool {
        match self {
            RateFn::ConstantRate(rate) => rate.wf(),
        }
    }

    open spec fn spec_rate(&self, t: Rat) -> Rat {
        match self {
            RateFn::ConstantRate(rate) => rate.spec_rate(t),
        }
    }

    open spec fn spec_cum_rate(&self, t: Rat) -> Rat {
        match self {
            RateFn::ConstantRate(rate) => rate.spec_cum_rate(t),
        }
    }

    open spec fn spec_inverse_cum_rate(&self, events: Rat) -> Option<Rat> {
        match self {
            RateFn::ConstantRate(rate) => rate.spec_inverse_cum_rate(events),
        }
    }

    open spec fn spec_duration(&self) -> Rat {
        match self {
            RateFn::ConstantRate(rate) => rate.spec_duration(),
        }
    }

    open spec fn rate_fits(&self, t: Rat) -> bool {
        match self {
            RateFn::ConstantRate(rate) => rate.rate_fits(t),
        }
    }

    open spec fn cum_rate_fits(&self, t: Rat) -> bool {
        match self {
            RateFn::ConstantRate(rate) => rate.cum_rate_fits(t),
        }
    }

    open spec fn inverse_fits(&self, events: Rat) -> bool {
        match self {
            RateFn::ConstantRate(rate) => rate.inverse_fits(events),
        }
    }

    open spec fn duration_fits(&self) -> bool {
        match self {
            RateFn::ConstantRate(rate) => rate.duration_fits(),
        }
    }

    proof fn lemma_rate_nonneg(&self, t: Rat) {
        match self {
            RateFn::ConstantRate(rate) => rate.lemma_rate_nonneg(t),
        }
    }

    proof fn lemma_cum_rate_wf(&self, t: Rat) {
        match self {
            RateFn::ConstantRate(rate) => rate.lemma_cum_rate_wf(t),
        }
    }

    proof fn lemma_inverse_wf(&self, events: Rat) {
        match self {
            RateFn::ConstantRate(rate) => rate.lemma_inverse_wf(events),
        }
    }

    proof fn lemma_rate_zero_past_duration(&self, t: Rat) {
        match self {
            RateFn::ConstantRate(rate) => rate.lemma_rate_zero_past_duration(t),
        }
    }

    proof fn lemma_cum_rate_monotone(&self, t1: Rat, t2: Rat) {
        match self {
            RateFn::ConstantRate(rate) => rate.lemma_cum_rate_monotone(t1, t2),
        }
    }

    fn rate(&self, t: &Ratio) -> (r: Result<Ratio, ModelError>) {
        match self {
            RateFn::ConstantRate(rate) => rate.rate(t),
        }
    }

    fn cum_rate(&self, t: &Ratio) -> (r: Result<Ratio, ModelError>) {
        match self {
            RateFn::ConstantRate(rate) => rate.cum_rate(t),
        }
    }

    fn inverse_cum_rate(&self, events: &Ratio) -> (r: Result<Option<Ratio>, ModelError>) {
        match self {
            RateFn::ConstantRate(rate) => rate.inverse_cum_rate(events),
        }
    }

    fn infection_duration(&self) -> (r: Result<Ratio, ModelError>) {
        match self {
            RateFn::ConstantRate(rate) => rate.infection_duration(),
        }
    }
}

/// Per-person, per-kind storage of assigned rate-function instances:
/// instances live in a dense append-only list, and one per-person map per
/// kind index points into it. Re-assigning a pair overwrites the mapping
/// but does not reclaim the old slot.
pub struct RateFnDataContainer {
    pub per_person_rates: TypeIndexMap<RateFnCategory, PersonVec<usize>>,
    pub rate_instances: Vec<RateFn>,
}

impl RateFnDataContainer {
    /// The slot recorded for a person/kind pair, if any.
    pub open spec fn spec_slot(&self, person: int, kind: int) -> Option<usize> {
        match self.per_person_rates.spec_get(kind) {
            Some(pv) => pv.spec_get(person),
            None => None,
        }
    }

    /// The instance stored for a person/kind pair, if any.
    pub open spec fn spec_instance(&self, person: int, kind: int) -> Option<RateFn> {
        match self.spec_slot(person, kind) {
            Some(slot) => {
                if slot < self.rate_instances@.len() {
                    Some(self.rate_instances@[slot as int])
                } else {
                    None
                }
            },
            None => None,
        }
    }

    /// Every recorded slot points into the instance list.
    pub open spec fn wf(&self) -> bool {
        forall|person: int, kind: int|
            match #[trigger] self.spec_slot(person, kind) {
                Some(slot) => slot < self.rate_instances@.len(),
                None => true,
            }
    }

    /// Stores `instance` for the person under the kind `K`, appending it to
    /// the dense list and recording the mapping; every other person/kind
    /// pair is left unchanged. Returns the new slot.
    pub fn add_instance<K: TypeIndex<RateFnCategory>>(
        &mut self,
        person_id: PersonId,
        _generator: K,
        instance: RateFn,
    ) -> (r: usize)
        requires
            old(self).wf(),
            old(self).rate_instances@.len() < usize::MAX,
            person_id.0 < usize::MAX,
            K::spec_type_index() < usize::MAX,
        ensures
            final(self).wf(),
            r == old(self).rate_instances@.len(),
            spec_assigned(
                *old(self),
                *final(self),
                person_id.0 as int,
                K::spec_type_index() as int,
                instance,
            ),
    {
        self.rate_instances.push(instance);
        let index = self.rate_instances.len() - 1;
        let kind_map = self.per_person_rates.get_mut_or_insert::<K>(PersonVec::new());
        kind_map.set(person_id, index);
        proof {
            let person = person_id.0 as int;
            let kind = K::spec_type_index() as int;
            assert forall|p: int, k: int|
                match #[trigger] self.spec_slot(p, k) {
                    Some(slot) => slot < self.rate_instances@.len(),
                    None => true,
                } by {
                if !(p == person && k == kind) {
                    assert(self.spec_slot(p, k) == old(self).spec_slot(p, k));
                    assert(match old(self).spec_slot(p, k) {
                        Some(slot) => slot < old(self).rate_instances@.len(),
                        None => true,
                    });
                }
            }
        }
        index
    }

    /// The instance stored for the person under the kind `K`; `None` if
    /// the pair was never assigned.
    pub fn get_instance<K: TypeIndex<RateFnCategory>>(&self, person_id: PersonId, _generator: K)
        -> (r: Option<&RateFn>)
        ensures
            match r {
                Some(f) => self.spec_instance(person_id.0 as int, K::spec_type_index() as int)
                    == Some(*f),
                None => self.spec_instance(person_id.0 as int, K::spec_type_index() as int)
                    is None,
            },
    {
        let kind_map = match self.per_person_rates.get::<K>() {
            Some(m) => m,
            None => {
                return None;
            },
        };
        let slot = match kind_map.get(person_id) {
            Some(s) => *s,
            None => {
                return None;
            },
        };
        if slot < self.rate_instances.len() {
            Some(&self.rate_instances[slot])
        } else {
            None
        }
    }
}

impl Default for RateFnDataContainer {
    /// An empty registry: nothing assigned for any person/kind pair.
    fn default() -> (r: RateFnDataContainer)
        ensures
            r.wf(),
            forall|person: int, kind: int| #[trigger] r.spec_instance(person, kind) is None,
            r.rate_instances@.len() == 0,
    {
        RateFnDataContainer { per_person_rates: TypeIndexMap::new(), rate_instances: Vec::new() }
    }
}

/// One assignment: `post` holds `instance` for the pair and agrees with
/// `pre` on every other pair.
pub open spec fn spec_assigned(
    pre: RateFnDataContainer,
    post: RateFnDataContainer,
    person: int,
    kind: int,
    instance: RateFn,
) -> bool {
    &&& post.spec_instance(person, kind) == Some(instance)
    &&& forall|p: int, k: int|
        !(p == person && k == kind) ==> #[trigger] post.spec_instance(p, k) == pre.spec_instance(
            p,
            k,
        )
}

/// Assigning two different kinds to the same person and looking each up
/// returns the correct, distinct instance.
pub proof fn lemma_registry_distinct_kinds(
    c0: RateFnDataContainer,
    c1: RateFnDataContainer,
    c2: RateFnDataContainer,
    person: int,
    kind1: int,
    kind2: int,
    f1: RateFn,
    f2: RateFn,
)
    requires
        kind1 != kind2,
        spec_assigned(c0, c1, person, kind1, f1),
        spec_assigned(c1, c2, person, kind2, f2),
    ensures
        c2.spec_instance(person, kind1) == Some(f1),
        c2.spec_instance(person, kind2) == Some(f2),
{
}

} // verus!
