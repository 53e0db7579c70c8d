//! Validation for seeding the population from weighted proportions.
//!
//! The driver draws which seeding action applies to each person from a
//! weighted distribution; the proportions must sum to at most one.

use vstd::prelude::*;

use crate::error::ModelError;
use crate::ratio::Rat;
use crate::ratio::Ratio;
use crate::ratio::rat_add;
use crate::ratio::rat_in_range;
use crate::ratio::rat_le;
use crate::ratio::rat_one;
use crate::ratio::rat_zero;

verus! {

/// The exact sum of a sequence of proportions.
pub open spec fn spec_weights_sum(s: Seq<Ratio>) -> Rat
    decreases s.len(),
{
    if s.len() == 0 {
        rat_zero()
    } else {
        rat_add(spec_weights_sum(s.drop_last()), s.last()@)
    }
}

/// Whether every partial sum of the proportions is representable.
pub open spec fn spec_weights_fit(s: Seq<Ratio>) -> bool
    decreases s.len(),
{
    if s.len() == 0 {
        true
    } else {
        spec_weights_fit(s.drop_last()) && rat_in_range(
            rat_add(spec_weights_sum(s.drop_last()), s.last()@),
        )
    }
}

/// A representable sum has representable prefixes.
proof fn lemma_weights_fit_prefix(s: Seq<Ratio>, j: int)
    requires
        0 <= j <= s.len(),
        spec_weights_fit(s),
    ensures
        spec_weights_fit(s.take(j)),
    decreases s.len() - j,
{
    if j == s.len() {
        assert(s.take(j) =~= s);
    } else {
        lemma_weights_fit_prefix(s, j + 1);
        assert(s.take(j + 1).drop_last() =~= s.take(j));
    }
}

/// Checks that the seeding proportions sum to at most one. Succeeds
/// exactly when the running sums are representable and the total is at
/// most one; reports `Overflow` exactly when a running sum is not, and
/// `ProportionSumTooLarge` exactly when the total exceeds one.
pub fn validate_proportions(weights: &Vec<Ratio>) -> (r: Result<(), ModelError>)
    requires
        forall|i: int| 0 <= i < weights@.len() ==> (#[trigger] weights@[i]).wf(),
    ensures
        r is Ok <==> spec_weights_fit(weights@) && rat_le(spec_weights_sum(weights@), rat_one()),
        r == Err::<(), ModelError>(ModelError::Overflow) <==> !spec_weights_fit(weights@),
        r == Err::<(), ModelError>(ModelError::ProportionSumTooLarge) <==> spec_weights_fit(
            weights@,
        ) && !rat_le(spec_weights_sum(weights@), rat_one()),
{
    let mut total = Ratio::from_int(0);
    let mut i: usize = 0;
    while i < weights.len()
        invariant
            i <= weights@.len(),
            forall|k: int| 0 <= k < weights@.len() ==> (#[trigger] weights@[k]).wf(),
            total.wf(),
            total@ == spec_weights_sum(weights@.take(i as int)),
            spec_weights_fit(weights@.take(i as int)),
        decreases weights@.len() - i,
    {
        proof {
            assert(weights@.take(i + 1 as int).drop_last() =~= weights@.take(i as int));
            assert(weights@.take(i + 1 as int).last() == weights@[i as int]);
        }
        total = match total.checked_add(&weights[i]) {
            Some(v) => v,
            None => {
                proof {
                    if spec_weights_fit(weights@) {
                        lemma_weights_fit_prefix(weights@, i + 1);
                    }
                }
                return Err(ModelError::Overflow);
            },
        };
        i = i + 1;
    }
    proof {
        assert(weights@.take(weights@.len() as int) =~= weights@);
    }
    let one = Ratio::from_int(1);
    if total.le(&one) {
        Ok(())
    } else {
        Err(ModelError::ProportionSumTooLarge)
    }
}

} // verus!
