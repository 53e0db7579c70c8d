//! Typed-slot dispatch: each kind of stored data is assigned a stable small
//! index within a category, and a [`TypeIndexMap`] holds one optional value
//! per index, giving O(1) lookup without runtime type erasure.
//!
//! Index assignment is lazy and exactly-once: a kind's index holder starts
//! at the sentinel `usize::MAX` and is claimed from a monotonically growing
//! per-category counter on first use ([`maybe_init_type_index`]). The
//! driver owns the counter and the holders and serializes claims; the
//! contract here pins down the exactly-once, monotonic behaviour.

use vstd::prelude::*;

verus! {

/// A category of type-indexed keys; each category has its own dense index
/// space.
pub trait TypeIndexCategory {
    /// A stable identifier distinguishing this category from others.
    fn category_id() -> u64;
}

/// A key with a stable dense index within category `C`.
pub trait TypeIndex<C: TypeIndexCategory> {
    /// The index this key occupies in the category's index space.
    spec fn spec_type_index() -> usize;

    /// Returns the key's index.
    fn type_index() -> (r: usize)
        ensures
            r == Self::spec_type_index(),
    ;
}

/// Records one more use of a category; the count only grows.
pub fn maybe_register_type_index_category(category_count: &mut usize)
    requires
        *old(category_count) < usize::MAX,
    ensures
        *final(category_count) == *old(category_count) + 1,
{
    *category_count += 1;
}

/// Claims an index for a kind, exactly once. `index_holder` caches the
/// kind's index, with `usize::MAX` meaning "not yet assigned";
/// `next_candidate` is the category's monotonically growing counter. A
/// holder already assigned is returned unchanged (the fast path); an
/// unassigned one claims the next counter value, which is then consumed.
pub fn maybe_init_type_index(next_candidate: &mut usize, index_holder: &mut usize) -> (r: usize)
    requires
        *old(next_candidate) < usize::MAX,
    ensures
        *old(index_holder) != usize::MAX ==> r == *old(index_holder) && *final(index_holder)
            == *old(index_holder) && *final(next_candidate) == *old(next_candidate),
        *old(index_holder) == usize::MAX ==> r == *old(next_candidate) && *final(index_holder) == r
            && *final(next_candidate) == *old(next_candidate) + 1,
{
    // Fast path: already initialized.
    let index = *index_holder;
    if index != usize::MAX {
        return index;
    }
    // Claim the candidate index and advance the counter.
    let candidate = *next_candidate;
    *index_holder = candidate;
    *next_candidate = candidate + 1;
    candidate
}

/// A map from type indexes (within category `C`) to values, stored densely.
pub struct TypeIndexMap<C: TypeIndexCategory, V> {
    pub _marker: core::marker::PhantomData<C>,
    pub store: Vec<Option<V>>,
}

impl<C: TypeIndexCategory, V> TypeIndexMap<C, V> {
    /// The value stored at index `i`, if any.
    pub open spec fn spec_get(&self, i: int) -> Option<V> {
        if 0 <= i < self.store@.len() {
            self.store@[i]
        } else {
            None
        }
    }

    /// Creates an empty map.
    pub fn new() -> (r: TypeIndexMap<C, V>)
        ensures
            r.store@ == Seq::<Option<V>>::empty(),
    {
        Self::with_capacity(0)
    }

    /// Creates an empty map with the given capacity reserved.
    pub fn with_capacity(capacity: usize) -> (r: TypeIndexMap<C, V>)
        ensures
            r.store@ == Seq::<Option<V>>::empty(),
    {
        TypeIndexMap { _marker: core::marker::PhantomData, store: Vec::with_capacity(capacity) }
    }

    /// A reference to the value for key `K`, if one is stored.
    pub fn get<K: TypeIndex<C>>(&self) -> (r: Option<&V>)
        ensures
            match r {
                Some(v) => self.spec_get(K::spec_type_index() as int) == Some(*v),
                None => self.spec_get(K::spec_type_index() as int) is None,
            },
    {
        let index = K::type_index();
        if index >= self.store.len() {
            return None;
        }
        match &self.store[index] {
            Some(v) => Some(v),
            None => None,
        }
    }

    /// A mutable borrow of the value for key `K`, if one is stored.
    pub fn get_mut<K: TypeIndex<C>>(&mut self) -> (r: Option<&mut V>)
        ensures
            old(self).spec_get(K::spec_type_index() as int) is None ==> r is None
                && final(self).store@ == old(self).store@,
            match r {
                Some(v) => {
                    &&& old(self).spec_get(K::spec_type_index() as int) == Some(*v)
                    &&& final(self).store@ == old(self).store@.update(
                        K::spec_type_index() as int,
                        Some(*final(v)),
                    )
                },
                None => old(self).spec_get(K::spec_type_index() as int) is None,
            },
    {
        let index = K::type_index();
        if index >= self.store.len() {
            return None;
        }
        let slot = &mut self.store[index];
        let r = slot.as_mut();
        proof {
            if old(self).spec_get(K::spec_type_index() as int) is None {
                assert(old(self).store@.update(index as int, None::<V>) =~= old(self).store@);
            }
        }
        r
    }

    /// A mutable borrow of the value for key `K`, inserting `value` first
    /// if none is stored.
    pub fn get_mut_or_insert<K: TypeIndex<C>>(&mut self, value: V) -> (r: &mut V)
        requires
            K::spec_type_index() < usize::MAX,
        ensures
            *r == (match old(self).spec_get(K::spec_type_index() as int) {
                Some(v) => v,
                None => value,
            }),
            final(self).spec_get(K::spec_type_index() as int) == Some(*final(r)),
            forall|j: int|
                j != K::spec_type_index() as int ==> final(self).spec_get(j) == old(
                    self,
                ).spec_get(j),
    {
        let index = K::type_index();
        self.grow_to(index);
        let slot = &mut self.store[index];
        slot.get_or_insert(value)
    }

    /// Stores `value` for key `K`, leaving every other key's entry
    /// unchanged.
    pub fn insert<K: TypeIndex<C>>(&mut self, value: V)
        requires
            K::spec_type_index() < usize::MAX,
        ensures
            final(self).spec_get(K::spec_type_index() as int) == Some(value),
            forall|j: int|
                j != K::spec_type_index() as int ==> final(self).spec_get(j) == old(
                    self,
                ).spec_get(j),
    {
        let index = K::type_index();
        self.grow_to(index);
        self.store[index] = Some(value);
    }

    /// Removes and returns the value for key `K`, if one was stored.
    pub fn remove<K: TypeIndex<C>>(&mut self) -> (r: Option<V>)
        ensures
            r == old(self).spec_get(K::spec_type_index() as int),
            final(self).spec_get(K::spec_type_index() as int) is None,
            forall|j: int|
                j != K::spec_type_index() as int ==> final(self).spec_get(j) == old(
                    self,
                ).spec_get(j),
    {
        let index = K::type_index();
        if index >= self.store.len() {
            return None;
        }
        let slot = &mut self.store[index];
        slot.take()
    }

    /// Grows the store so that `index` is addressable.
    fn grow_to(&mut self, index: usize)
        requires
            index < usize::MAX,
        ensures
            index < final(self).store@.len(),
            forall|j: int| final(self).spec_get(j) == old(self).spec_get(j),
            forall|j: int|
                0 <= j < old(self).store@.len() ==> final(self).store@[j] == old(self).store@[j],
    {
        while self.store.len() <= index
            invariant
                index < usize::MAX,
                old(self).store@.len() <= self.store@.len(),
                self.store@.len() <= index + 1 || self.store@.len() == old(self).store@.len(),
                forall|j: int|
                    0 <= j < old(self).store@.len() ==> self.store@[j] == old(self).store@[j],
                forall|j: int|
                    old(self).store@.len() <= j < self.store@.len() ==> self.store@[j] is None,
            decreases index + 1 - self.store@.len(),
        {
            self.store.push(None);
        }
    }

    /// The stored values, in canonical index order.
    pub fn values(&self) -> (r: Vec<&V>)
        ensures
            r@.map_values(|v: &V| *v) == present_values(self.store@),
    {
        let mut collected: Vec<&V> = Vec::new();
        let mut i: usize = 0;
        while i < self.store.len()
            invariant
                i <= self.store@.len(),
                collected@.map_values(|v: &V| *v) =~= present_values(
                    self.store@.take(i as int),
                ),
            decreases self.store@.len() - i,
        {
            proof {
                assert(self.store@.take(i + 1 as int).drop_last() =~= self.store@.take(i as int));
                assert(self.store@.take(i + 1 as int).last() == self.store@[i as int]);
            }
            match &self.store[i] {
                Some(v) => {
                    collected.push(v);
                },
                None => (),
            }
            i = i + 1;
        }
        proof {
            assert(self.store@.take(self.store@.len() as int) =~= self.store@);
        }
        collected
    }
}

/// The values present in a sequence of optional slots, in order.
pub open spec fn present_values<V>(s: Seq<Option<V>>) -> Seq<V>
    decreases s.len(),
{
    if s.len() == 0 {
        Seq::empty()
    } else {
        match s.last() {
            Some(v) => present_values(s.drop_last()).push(v),
            None => present_values(s.drop_last()),
        }
    }
}

} // verus!
