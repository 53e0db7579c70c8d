//! Scaling factors that account for a person's total infectiousness.

use vstd::prelude::*;

use crate::person::PersonId;
use crate::ratio::Ratio;
use crate::ratio::rat_one;

verus! {

/// The maximum possible scaling factor for total infectiousness for a
/// person, given information known at the time of a forecast. The modifier
/// used for intrinsic infectiousness is ignored because all modifiers must
/// be less than or equal to one.
pub fn forecasted_maximum(_person_id: PersonId) -> (r: Ratio)
    ensures
        r@ == rat_one(),
        r.wf(),
{
    Ratio::from_int(1)
}

/// The scaling factor that accounts for the total infectiousness of a
/// person, given factors related to their environment. All modifiers of the
/// infector's intrinsic infectiousness are aggregated and returned as a
/// single factor to multiply by the base total infectiousness; modifiers are
/// assumed independent of the setting and linear.
pub fn actual(_person_id: PersonId) -> (r: Ratio)
    ensures
        r@ == rat_one(),
        r.wf(),
{
    Ratio::from_int(1)
}

} // verus!
