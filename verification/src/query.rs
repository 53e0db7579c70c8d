//! Queries over person properties: a list of property/value constraints
//! evaluated conjunctively, short-circuiting on the first mismatch.
//!
//! Property kinds are runtime handles (small integers obtained once at
//! startup), and property values are plain integers.

use vstd::prelude::*;

verus! {

/// One property/value constraint: the property kind's runtime handle and
/// the value the property must have.
#[derive(Clone, Copy, Debug, PartialEq, Eq, Structural)]
pub struct PropertyValue {
    pub kind: u64,
    pub value: i64,
}

/// A conjunction of property/value constraints.
#[derive(Debug)]
pub struct Query {
    pub pairs: Vec<PropertyValue>,
}

/// The value recorded for `kind` in a property list: the first entry with
/// that kind, if any.
pub open spec fn spec_lookup(props: Seq<PropertyValue>, kind: u64) -> Option<i64>
    decreases props.len(),
{
    if props.len() == 0 {
        None
    } else if props[0].kind == kind {
        Some(props[0].value)
    } else {
        spec_lookup(props.drop_first(), kind)
    }
}

/// Whether a property list satisfies every constraint: each constrained
/// kind is present with exactly the required value.
pub open spec fn spec_matches(pairs: Seq<PropertyValue>, props: Seq<PropertyValue>) -> bool {
    forall|i: int|
        0 <= i < pairs.len() ==> spec_lookup(props, (#[trigger] pairs[i]).kind) == Some(
            pairs[i].value,
        )
}

/// The value recorded for `kind` in a property list, if any.
pub fn lookup_value(props: &Vec<PropertyValue>, kind: u64) -> (r: Option<i64>)
    ensures
        r == spec_lookup(props@, kind),
{
    let mut i: usize = 0;
    proof {
        assert(props@.skip(0) =~= props@);
    }
    while i < props.len()
        invariant
            i <= props@.len(),
            spec_lookup(props@, kind) == spec_lookup(props@.skip(i as int), kind),
        decreases props@.len() - i,
    {
        proof {
            assert(props@.skip(i as int).drop_first() =~= props@.skip(i + 1 as int));
            assert(props@.skip(i as int)[0] == props@[i as int]);
        }
        if props[i].kind == kind {
            return Some(props[i].value);
        }
        i = i + 1;
    }
    None
}

/// A constraint list in canonical order: kinds strictly increasing.
pub open spec fn sorted_by_kind(s: Seq<PropertyValue>) -> bool {
    forall|i: int, j: int|
        0 <= i < j < s.len() ==> (#[trigger] s[i]).kind < (#[trigger] s[j]).kind
}

/// Replacing the first entry of a kind, where no earlier entry has that
/// kind, changes exactly that kind's lookup.
proof fn lemma_lookup_update(s: Seq<PropertyValue>, idx: int, pair: PropertyValue, k: u64)
    requires
        0 <= idx < s.len(),
        s[idx].kind == pair.kind,
        forall|j: int| 0 <= j < idx ==> (#[trigger] s[j]).kind != pair.kind,
    ensures
        spec_lookup(s.update(idx, pair), k) == if k == pair.kind {
            Some(pair.value)
        } else {
            spec_lookup(s, k)
        },
    decreases idx,
{
    if idx == 0 {
        assert(s.update(idx, pair).drop_first() =~= s.drop_first());
    } else {
        assert(s.update(idx, pair).drop_first() =~= s.drop_first().update(idx - 1, pair));
        lemma_lookup_update(s.drop_first(), idx - 1, pair, k);
    }
}

/// Inserting an entry where every earlier entry has another kind gives
/// that kind's lookup the new value and changes no other kind's lookup.
proof fn lemma_lookup_insert(s: Seq<PropertyValue>, idx: int, pair: PropertyValue, k: u64)
    requires
        0 <= idx <= s.len(),
        forall|j: int| 0 <= j < idx ==> (#[trigger] s[j]).kind != pair.kind,
    ensures
        spec_lookup(s.insert(idx, pair), k) == if k == pair.kind {
            Some(pair.value)
        } else {
            spec_lookup(s, k)
        },
    decreases idx,
{
    if idx == 0 {
        assert(s.insert(0, pair).drop_first() =~= s);
        assert(s.insert(0, pair)[0] == pair);
    } else {
        assert(s.insert(idx, pair).drop_first() =~= s.drop_first().insert(idx - 1, pair));
        assert(s.insert(idx, pair)[0] == s[0]);
        lemma_lookup_insert(s.drop_first(), idx - 1, pair, k);
    }
}

/// Places `pair` into a canonically ordered constraint list, overwriting
/// an entry of the same kind and keeping the order.
fn insert_pair(list: &mut Vec<PropertyValue>, pair: PropertyValue)
    requires
        sorted_by_kind(old(list)@),
    ensures
        sorted_by_kind(final(list)@),
        forall|k: u64|
            spec_lookup(final(list)@, k) == if k == pair.kind {
                Some(pair.value)
            } else {
                spec_lookup(old(list)@, k)
            },
{
    let mut idx: usize = 0;
    while idx < list.len() && list[idx].kind < pair.kind
        invariant
            idx <= list@.len(),
            list@ == old(list)@,
            forall|j: int| 0 <= j < idx ==> (#[trigger] list@[j]).kind < pair.kind,
        decreases list@.len() - idx,
    {
        idx = idx + 1;
    }
    if idx < list.len() && list[idx].kind == pair.kind {
        list[idx] = pair;
        proof {
            assert forall|k: u64|
                spec_lookup(list@, k) == if k == pair.kind {
                    Some(pair.value)
                } else {
                    spec_lookup(old(list)@, k)
                } by {
                lemma_lookup_update(old(list)@, idx as int, pair, k);
            }
        }
    } else {
        list.insert(idx, pair);
        proof {
            assert forall|k: u64|
                spec_lookup(list@, k) == if k == pair.kind {
                    Some(pair.value)
                } else {
                    spec_lookup(old(list)@, k)
                } by {
                lemma_lookup_insert(old(list)@, idx as int, pair, k);
            }
        }
    }
}

/// Conversion of a constraint list into its canonical ordered form.
pub trait ToOrderedMap {
    /// The constraints, in the order they were given.
    spec fn spec_entries(&self) -> Seq<PropertyValue>;

    /// The constraints in canonical order: kinds strictly increasing, the
    /// first entry of each kind winning, every lookup preserved.
    fn to_map(&self) -> (r: Vec<PropertyValue>)
        ensures
            sorted_by_kind(r@),
            forall|k: u64| spec_lookup(r@, k) == spec_lookup(self.spec_entries(), k),
    ;
}

/// Matching a query against a person's recorded properties.
pub trait MatchPerson {
    /// Whether the property list satisfies this matcher.
    spec fn spec_match(&self, props: Seq<PropertyValue>) -> bool;

    /// Evaluates the matcher against the property list.
    fn match_person(&self, properties: &Vec<PropertyValue>) -> (r: bool)
        ensures
            r == self.spec_match(properties@),
    ;
}

impl Query {
    /// A query over the given constraints.
    pub fn new(pairs: Vec<PropertyValue>) -> (r: Query)
        ensures
            r.pairs@ == pairs@,
    {
        Query { pairs }
    }
}

impl ToOrderedMap for Query {
    open spec fn spec_entries(&self) -> Seq<PropertyValue> {
        self.pairs@
    }

    /// Builds the canonical form back to front, so that the first entry
    /// of each kind overwrites the later ones.
    fn to_map(&self) -> (r: Vec<PropertyValue>) {
        let mut result: Vec<PropertyValue> = Vec::new();
        let mut i: usize = self.pairs.len();
        while i > 0
            invariant
                i <= self.pairs@.len(),
                sorted_by_kind(result@),
                forall|k: u64|
                    spec_lookup(result@, k) == spec_lookup(self.pairs@.skip(i as int), k),
            decreases i,
        {
            i = i - 1;
            proof {
                assert(self.pairs@.skip(i as int).drop_first() =~= self.pairs@.skip(i + 1 as int));
                assert(self.pairs@.skip(i as int)[0] == self.pairs@[i as int]);
            }
            insert_pair(&mut result, self.pairs[i]);
        }
        proof {
            assert(self.pairs@.skip(0) =~= self.pairs@);
        }
        result
    }
}

impl MatchPerson for Query {
    open spec fn spec_match(&self, props: Seq<PropertyValue>) -> bool {
        spec_matches(self.pairs@, props)
    }

    /// Evaluates each constraint in turn, stopping at the first mismatch.
    fn match_person(&self, properties: &Vec<PropertyValue>) -> (r: bool) {
        let mut i: usize = 0;
        while i < self.pairs.len()
            invariant
                i <= self.pairs@.len(),
                forall|k: int|
                    0 <= k < i ==> spec_lookup(properties@, (#[trigger] self.pairs@[k]).kind)
                        == Some(self.pairs@[k].value),
            decreases self.pairs@.len() - i,
        {
            let pair = self.pairs[i];
            let found = lookup_value(properties, pair.kind);
            let matched = match found {
                Some(v) => v == pair.value,
                None => false,
            };
            if !matched {
                return false;
            }
            i = i + 1;
        }
        true
    }
}

} // verus!
