//! Simulation statistics: infection and rejection counts, daily incidence,
//! and the derived summary figures. Writing them out is the driver's job.

use vstd::prelude::*;

use crate::infection_status::Status;
use crate::ratio::Rat;
use crate::ratio::Ratio;
use crate::ratio::rat_div;
use crate::ratio::rat_from_int;
use crate::ratio::rat_one;
use crate::ratio::rat_sub;
use crate::ratio::rat_zero;

verus! {

/// Counters accumulated over a run.
pub struct Counts {
    pub total_infections: usize,
    pub forecasts_rejected: usize,
    pub daily_incidence: Vec<usize>,
}

/// The forecast efficiency: the share of forecasts that were not
/// rejected, `1 - rejected / (infections + rejected)`, or zero before any
/// infection.
pub open spec fn spec_forecast_efficiency(total: int, rejected: int) -> Rat {
    if total > 0 {
        rat_sub(rat_one(), rat_div(rat_from_int(rejected), rat_from_int(total + rejected)))
    } else {
        rat_zero()
    }
}

impl Counts {
    /// Fresh counters, with room reserved for about `sim_length` days of
    /// incidence.
    pub fn new(sim_length: &Ratio) -> (r: Counts)
        requires
            sim_length.wf(),
            sim_length@.n >= 0,
        ensures
            r.total_infections == 0,
            r.forecasts_rejected == 0,
            r.daily_incidence@ == Seq::<usize>::empty(),
    {
        let days = sim_length.floor_nonneg();
        let capacity: usize = if days > (usize::MAX as u64) {
            usize::MAX
        } else {
            days as usize
        };
        Counts {
            total_infections: 0,
            forecasts_rejected: 0,
            daily_incidence: Vec::with_capacity(capacity),
        }
    }

    /// Records one rejected forecast.
    pub fn add_forecast_rejection(&mut self)
        requires
            old(self).forecasts_rejected < usize::MAX,
        ensures
            final(self).forecasts_rejected == old(self).forecasts_rejected + 1,
            final(self).total_infections == old(self).total_infections,
            final(self).daily_incidence@ == old(self).daily_incidence@,
    {
        self.forecasts_rejected += 1;
    }

    /// Records one infection; an infection with a recorded time is also
    /// counted in that day's incidence, growing the per-day table as
    /// needed.
    pub fn add_infection(&mut self, status: Status)
        requires
            status.wf(),
            old(self).total_infections < usize::MAX,
            status.spec_infection_time() matches Some(t) ==> t@.n >= 0 && t@.n / t@.d + 1
                < usize::MAX,
            forall|j: int|
                0 <= j < old(self).daily_incidence@.len() ==> old(self).daily_incidence@[j]
                    < usize::MAX,
        ensures
            final(self).total_infections == old(self).total_infections + 1,
            final(self).forecasts_rejected == old(self).forecasts_rejected,
            match status.spec_infection_time() {
                None => final(self).daily_incidence@ == old(self).daily_incidence@,
                Some(t) => {
                    let day = t@.n / t@.d;
                    &&& final(self).daily_incidence@.len() == if old(self).daily_incidence@.len() > day + 1 {
                        old(self).daily_incidence@.len() as int
                    } else {
                        day + 1
                    }
                    &&& final(self).daily_incidence@[day] == (if day < old(self).daily_incidence@.len() {
                        old(self).daily_incidence@[day] as int
                    } else {
                        0
                    }) + 1
                    &&& forall|j: int|
                        0 <= j < final(self).daily_incidence@.len() && j != day ==> final(self).daily_incidence@[j] == (if j < old(self).daily_incidence@.len() {
                            old(self).daily_incidence@[j] as int
                        } else {
                            0
                        })
                },
            },
    {
        self.total_infections += 1;
        let infection_time = match status.infection_time() {
            Some(t) => t,
            None => {
                return ;
            },
        };
        let day = infection_time.floor_nonneg() as usize;
        while self.daily_incidence.len() <= day
            invariant
                day + 1 < usize::MAX,
                old(self).daily_incidence@.len() <= self.daily_incidence@.len(),
                self.daily_incidence@.len() <= day + 1 || self.daily_incidence@.len() == old(self).daily_incidence@.len(),
                forall|j: int|
                    0 <= j < old(self).daily_incidence@.len() ==> self.daily_incidence@[j] == old(self).daily_incidence@[j],
                forall|j: int|
                    old(self).daily_incidence@.len() <= j < self.daily_incidence@.len()
                        ==> self.daily_incidence@[j] == 0,
                self.total_infections == old(self).total_infections + 1,
                self.forecasts_rejected == old(self).forecasts_rejected,
            decreases day + 1 - self.daily_incidence@.len(),
        {
            self.daily_incidence.push(0);
        }
        let current = self.daily_incidence[day];
        self.daily_incidence[day] = current + 1;
    }

    /// The forecast efficiency over the run so far; exactly
    /// `1 - rejected / (infections + rejected)` once any infection has
    /// been recorded, zero before.
    pub fn forecast_efficiency(&self) -> (r: Ratio)
        requires
            self.total_infections + self.forecasts_rejected <= i64::MAX,
        ensures
            r@ == spec_forecast_efficiency(
                self.total_infections as int,
                self.forecasts_rejected as int,
            ),
            r.wf(),
    {
        if self.total_infections == 0 {
            return Ratio::from_int(0);
        }
        let rejected = Ratio::from_int(self.forecasts_rejected as i64);
        let total = Ratio::from_int(
            (self.total_infections as i64) + (self.forecasts_rejected as i64),
        );
        let share = match rejected.checked_div(&total) {
            Some(v) => v,
            None => {
                proof {
                    assert(false);
                }
                Ratio::from_int(0)
            },
        };
        match Ratio::from_int(1).checked_sub(&share) {
            Some(v) => v,
            None => {
                proof {
                    assert(false);
                }
                Ratio::from_int(0)
            },
        }
    }

    /// The attack rate: infections recorded so far over the population.
    pub fn attack_rate(&self, population: usize) -> (r: Ratio)
        requires
            1 <= population <= i64::MAX,
            self.total_infections <= i64::MAX,
        ensures
            r@ == rat_div(
                rat_from_int(self.total_infections as int),
                rat_from_int(population as int),
            ),
            r.wf(),
    {
        let total = Ratio::from_int(self.total_infections as i64);
        let pop = Ratio::from_int(population as i64);
        match total.checked_div(&pop) {
            Some(v) => v,
            None => {
                proof {
                    assert(false);
                }
                Ratio::from_int(0)
            },
        }
    }
}

} // verus!
