use vstd::prelude::*;

use crate::errors::CustomError;
use vstd::arithmetic::div_mod::{lemma_div_by_multiple, lemma_div_is_ordered, lemma_div_pos_is_pos};
use vstd::arithmetic::mul::{lemma_mul_inequality, lemma_mul_nonnegative, lemma_mul_upper_bound};

verus! {

/// Seconds in one week, the granularity of the stepped schedule.
pub const SECONDS_PER_WEEK: u64 = 604800;

/// How a schedule releases its amount over time.
#[derive(Clone, Copy, Debug, PartialEq, Eq, Structural)]
pub enum ScheduleShape {
    /// The entitlement jumps once per whole elapsed week, in equal steps.
    SteppedWeekly,
    /// The entitlement grows with every elapsed second, proportionally.
    ContinuousLinear,
}

/// The vesting record for one `(receiver_id, asset_id)` pair: the schedule
/// and the ledger of what has already been released.
#[derive(Clone, Copy, Debug, PartialEq, Eq, Structural)]
pub struct VaultInfo {
    /// The asset held in custody for this schedule.
    pub asset_id: u64,
    /// The party the asset vests to.
    pub receiver_id: u64,
    /// The quantity deposited at lock time; fixed for the record's lifetime.
    pub total_amount: u64,
    /// The quantity released so far; only ever grows, never past `total_amount`.
    pub released_amount: u64,
    /// Unix seconds at which vesting begins; also the implicit cliff.
    pub start_time: u64,
    /// Unix seconds at which the whole amount is vested.
    pub end_time: u64,
    /// Which release-shape function governs the schedule.
    pub schedule_shape: ScheduleShape,
}

impl VaultInfo {
    /// The record invariant: a positive deposit, a forward-running schedule,
    /// a ledger within bounds, and at least one full week for a stepped shape.
    pub open spec fn wf(self) -> bool {
        &&& self.total_amount > 0
        &&& self.end_time > self.start_time
        &&& self.released_amount <= self.total_amount
        &&& (self.schedule_shape is SteppedWeekly ==> self.spec_total_weeks() >= 1)
    }

    /// Whole weeks the schedule spans.
    pub open spec fn spec_total_weeks(self) -> int {
        (self.end_time - self.start_time) / (SECONDS_PER_WEEK as int)
    }

    /// Whole weeks elapsed since the schedule started.
    pub open spec fn spec_weeks_elapsed(self, now: u64) -> int
        recommends
            now >= self.start_time,
    {
        (now - self.start_time) / (SECONDS_PER_WEEK as int)
    }

    /// The cumulative amount the receiver is owed as of `now`, per the
    /// record's release-shape function.
    pub open spec fn spec_entitled(self, now: u64) -> int
        recommends
            self.wf(),
            now >= self.start_time,
    {
        match self.schedule_shape {
            ScheduleShape::SteppedWeekly => {
                let tw = self.spec_total_weeks();
                let we = self.spec_weeks_elapsed(now);
                let w = if we <= tw {
                    we
                } else {
                    tw
                };
                self.total_amount * w / tw
            },
            ScheduleShape::ContinuousLinear => {
                if now >= self.end_time {
                    self.total_amount as int
                } else {
                    self.total_amount * (now - self.start_time) / (self.end_time - self.start_time)
                }
            },
        }
    }

    /// What one unlock at `now` would transfer: the entitlement to date less
    /// what is already released, and never below zero.
    pub open spec fn spec_release(self, now: u64) -> int
        recommends
            self.wf(),
            now >= self.start_time,
    {
        if self.spec_entitled(now) >= self.released_amount {
            self.spec_entitled(now) - self.released_amount
        } else {
            0
        }
    }

    /// Why an unlock of this record at `now` fails, or `None` when it releases.
    pub open spec fn spec_unlock_error(self, now: u64) -> Option<CustomError> {
        if now <= self.start_time {
            Some(CustomError::CliffNotPassed)
        } else if self.released_amount >= self.total_amount {
            Some(CustomError::FullyVested)
        } else if self.spec_release(now) == 0 {
            Some(CustomError::NothingToRelease)
        } else {
            None
        }
    }

    /// The record after one unlock attempt at `now`: the ledger advances by
    /// the released amount on success and stays put on any failure.
    pub open spec fn spec_unlock_step(self, now: u64) -> VaultInfo {
        if self.spec_unlock_error(now) is None {
            VaultInfo {
                released_amount: (self.released_amount + self.spec_release(now)) as u64,
                ..self
            }
        } else {
            self
        }
    }

    /// The entitlement to date never lies outside `[0, total_amount]`.
    pub proof fn lemma_entitled_bounds(self, now: u64)
        requires
            self.wf(),
            now >= self.start_time,
        ensures
            0 <= self.spec_entitled(now) <= self.total_amount,
    {
        let ta = self.total_amount as int;
        match self.schedule_shape {
            ScheduleShape::SteppedWeekly => {
                let tw = self.spec_total_weeks();
                let we = self.spec_weeks_elapsed(now);
                let w = if we <= tw {
                    we
                } else {
                    tw
                };
                lemma_div_pos_is_pos(now - self.start_time, SECONDS_PER_WEEK as int);
                lemma_mul_nonnegative(ta, w);
                lemma_div_pos_is_pos(ta * w, tw);
                lemma_mul_inequality(w, tw, ta);
                lemma_div_is_ordered(ta * w, ta * tw, tw);
                lemma_div_by_multiple(ta, tw);
            },
            ScheduleShape::ContinuousLinear => {
                if now < self.end_time {
                    let elapsed = now - self.start_time;
                    let duration = self.end_time - self.start_time;
                    lemma_mul_nonnegative(ta, elapsed);
                    lemma_div_pos_is_pos(ta * elapsed, duration);
                    lemma_mul_inequality(elapsed, duration, ta);
                    lemma_div_is_ordered(ta * elapsed, ta * duration, duration);
                    lemma_div_by_multiple(ta, duration);
                }
            },
        }
    }

    /// Past the end of the schedule the entitlement is the whole amount:
    /// at or after `end_time` for the continuous shape, and from the week
    /// in which every schedule week has elapsed for the stepped shape.
    pub proof fn lemma_entitled_full(self, now: u64)
        requires
            self.wf(),
            now >= self.start_time,
            self.schedule_shape is SteppedWeekly ==> self.spec_weeks_elapsed(now)
                >= self.spec_total_weeks(),
            self.schedule_shape is ContinuousLinear ==> now >= self.end_time,
        ensures
            self.spec_entitled(now) == self.total_amount,
    {
        if self.schedule_shape is SteppedWeekly {
            let tw = self.spec_total_weeks();
            lemma_div_by_multiple(self.total_amount as int, tw);
        }
    }

    /// One unlock attempt keeps the record well formed, never shrinks the
    /// ledger, never pushes it past the total, and touches no other field.
    pub proof fn lemma_step_wf(self, now: u64)
        requires
            self.wf(),
        ensures
            self.spec_unlock_step(now).wf(),
            self.spec_unlock_step(now).released_amount >= self.released_amount,
            self.spec_unlock_step(now).released_amount <= self.total_amount,
            self.spec_unlock_step(now).asset_id == self.asset_id,
            self.spec_unlock_step(now).receiver_id == self.receiver_id,
            self.spec_unlock_step(now).total_amount == self.total_amount,
            self.spec_unlock_step(now).start_time == self.start_time,
            self.spec_unlock_step(now).end_time == self.end_time,
            self.spec_unlock_step(now).schedule_shape == self.schedule_shape,
    {
        if self.spec_unlock_error(now) is None {
            self.lemma_entitled_bounds(now);
        }
    }

    /// Whole weeks the schedule spans.
    pub fn total_weeks(&self) -> (w: u64)
        requires
            self.start_time <= self.end_time,
        ensures
            w as int == self.spec_total_weeks(),
    {
        (self.end_time - self.start_time) / SECONDS_PER_WEEK
    }

    /// The cumulative amount the receiver is owed as of `now`.
    pub fn entitlement_to_date(&self, now: u64) -> (e: u64)
        requires
            self.wf(),
            now >= self.start_time,
        ensures
            e as int == self.spec_entitled(now),
            e <= self.total_amount,
    {
        proof {
            self.lemma_entitled_bounds(now);
        }
        match self.schedule_shape {
            ScheduleShape::SteppedWeekly => {
                let tw: u64 = (self.end_time - self.start_time) / SECONDS_PER_WEEK;
                let we: u64 = (now - self.start_time) / SECONDS_PER_WEEK;
                let w: u64 = if we <= tw {
                    we
                } else {
                    tw
                };
                proof {
                    lemma_mul_upper_bound(
                        self.total_amount as int,
                        u64::MAX as int,
                        w as int,
                        u64::MAX as int,
                    );
                }
                let prod: u128 = (self.total_amount as u128) * (w as u128);
                let ent: u128 = prod / (tw as u128);
                ent as u64
            },
            ScheduleShape::ContinuousLinear => {
                if now >= self.end_time {
                    self.total_amount
                } else {
                    let elapsed: u64 = now - self.start_time;
                    let duration: u64 = self.end_time - self.start_time;
                    proof {
                        lemma_mul_upper_bound(
                            self.total_amount as int,
                            u64::MAX as int,
                            elapsed as int,
                            u64::MAX as int,
                        );
                    }
                    let prod: u128 = (self.total_amount as u128) * (elapsed as u128);
                    let ent: u128 = prod / (duration as u128);
                    ent as u64
                }
            },
        }
    }

    /// What one unlock at `now` would transfer, saturating at zero.
    pub fn release_amount(&self, now: u64) -> (r: u64)
        requires
            self.wf(),
            now >= self.start_time,
        ensures
            r as int == self.spec_release(now),
            self.released_amount + r <= self.total_amount,
    {
        let e = self.entitlement_to_date(now);
        if e >= self.released_amount {
            e - self.released_amount
        } else {
            0
        }
    }
}

} // verus!
