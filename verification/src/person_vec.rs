//! A growable map from person to value, dense in the person index.

use vstd::prelude::*;

use crate::person::PersonId;

verus! {

/// Per-person storage: a vector of optional values indexed by the person's
/// dense index, growing on demand.
pub struct PersonVec<T> {
    pub store: Vec<Option<T>>,
}

impl<T> PersonVec<T> {
    /// The value stored for dense index `i`, if any.
    pub open spec fn spec_get(&self, i: int) -> Option<T> {
        if 0 <= i < self.store@.len() {
            self.store@[i]
        } else {
            None
        }
    }

    /// An empty store.
    pub fn new() -> (r: PersonVec<T>)
        ensures
            r.store@ == Seq::<Option<T>>::empty(),
    {
        PersonVec { store: Vec::new() }
    }

    /// An empty store with room reserved for `capacity` people.
    pub fn with_capacity(capacity: usize) -> (r: PersonVec<T>)
        ensures
            r.store@ == Seq::<Option<T>>::empty(),
    {
        PersonVec { store: Vec::with_capacity(capacity) }
    }

    /// The value stored for `person_id`, if any.
    pub fn get(&self, person_id: PersonId) -> (r: Option<&T>)
        ensures
            match r {
                Some(v) => self.spec_get(person_id.0 as int) == Some(*v),
                None => self.spec_get(person_id.0 as int) is None,
            },
    {
        let index = person_id.index();
        if index >= self.store.len() {
            return None;
        }
        match &self.store[index] {
            Some(v) => Some(v),
            None => None,
        }
    }

    /// A mutable borrow of the value stored for `person_id`, if any.
    pub fn get_mut(&mut self, person_id: PersonId) -> (r: Option<&mut T>)
        ensures
            old(self).spec_get(person_id.0 as int) is None ==> r is None && final(self).store@
                == old(self).store@,
            match r {
                Some(v) => {
                    &&& old(self).spec_get(person_id.0 as int) == Some(*v)
                    &&& final(self).store@ == old(self).store@.update(
                        person_id.0 as int,
                        Some(*final(v)),
                    )
                },
                None => old(self).spec_get(person_id.0 as int) is None,
            },
    {
        let index = person_id.index();
        if index >= self.store.len() {
            return None;
        }
        let slot = &mut self.store[index];
        let r = slot.as_mut();
        proof {
            if old(self).spec_get(person_id.0 as int) is None {
                assert(old(self).store@.update(index as int, None::<T>) =~= old(self).store@);
            }
        }
        r
    }

    /// Stores `value` for `person_id`, growing the store as needed and
    /// leaving every other person's entry unchanged.
    pub fn set(&mut self, person_id: PersonId, value: T)
        requires
            person_id.0 < usize::MAX,
        ensures
            final(self).spec_get(person_id.0 as int) == Some(value),
            forall|j: int| j != person_id.0 as int ==> final(self).spec_get(j) == old(
                self,
            ).spec_get(j),
            final(self).store@.len() == if old(self).store@.len() > person_id.0 + 1 {
                old(self).store@.len() as int
            } else {
                person_id.0 + 1
            },
    {
        let index = person_id.index();
        while self.store.len() <= index
            invariant
                index < usize::MAX,
                old(self).store@.len() <= self.store@.len(),
                self.store@.len() <= index + 1 || self.store@.len() == old(self).store@.len(),
                forall|j: int|
                    0 <= j < old(self).store@.len() ==> self.store@[j] == old(self).store@[j],
                forall|j: int|
                    old(self).store@.len() <= j < self.store@.len() ==> self.store@[j] is None,
            decreases index + 1 - self.store@.len(),
        {
            self.store.push(None);
        }
        self.store[index] = Some(value);
    }
}

} // verus!
