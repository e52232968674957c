use vstd::prelude::*;

use crate::errors::CustomError;
use crate::record::VaultInfo;

verus! {

/// The record after a whole sequence of unlock attempts, one attempt per
/// entry of `times`, applied in order. Attempts that fail change nothing.
pub open spec fn spec_run(rec: VaultInfo, times: Seq<u64>) -> VaultInfo
    decreases times.len(),
{
    if times.len() == 0 {
        rec
    } else {
        spec_run(rec.spec_unlock_step(times[0]), times.drop_first())
    }
}

/// The sum of the amounts that the unlock attempts in `times` release: each
/// successful attempt contributes exactly the amount it transfers out of
/// custody, each failing attempt contributes nothing.
pub open spec fn spec_released_sum(rec: VaultInfo, times: Seq<u64>) -> int
    decreases times.len(),
{
    if times.len() == 0 {
        0
    } else {
        let first = if rec.spec_unlock_error(times[0]) is None {
            rec.spec_release(times[0])
        } else {
            0
        };
        first + spec_released_sum(rec.spec_unlock_step(times[0]), times.drop_first())
    }
}

/// Monotonicity: across any sequence of unlock attempts, at any times and in
/// any order, the ledger never shrinks, never passes the deposited total,
/// and the schedule itself never changes.
pub proof fn lemma_released_monotonic(rec: VaultInfo, times: Seq<u64>)
    requires
        rec.wf(),
    ensures
        spec_run(rec, times).wf(),
        spec_run(rec, times).released_amount >= rec.released_amount,
        spec_run(rec, times).released_amount <= rec.total_amount,
        spec_run(rec, times).asset_id == rec.asset_id,
        spec_run(rec, times).receiver_id == rec.receiver_id,
        spec_run(rec, times).total_amount == rec.total_amount,
        spec_run(rec, times).start_time == rec.start_time,
        spec_run(rec, times).end_time == rec.end_time,
        spec_run(rec, times).schedule_shape == rec.schedule_shape,
    decreases times.len(),
{
    if times.len() > 0 {
        rec.lemma_step_wf(times[0]);
        lemma_released_monotonic(rec.spec_unlock_step(times[0]), times.drop_first());
    }
}

/// Conservation: what a sequence of unlock attempts transfers out of custody
/// sums to exactly the ledger's growth, and so never exceeds what the record
/// still holds back — in particular never the deposited total.
pub proof fn lemma_conservation(rec: VaultInfo, times: Seq<u64>)
    requires
        rec.wf(),
    ensures
        spec_released_sum(rec, times) == spec_run(rec, times).released_amount
            - rec.released_amount,
        spec_released_sum(rec, times) <= rec.total_amount - rec.released_amount,
    decreases times.len(),
{
    if times.len() > 0 {
        let now = times[0];
        let stepped = rec.spec_unlock_step(now);
        rec.lemma_step_wf(now);
        if rec.spec_unlock_error(now) is None {
            rec.lemma_entitled_bounds(now);
            assert(stepped.released_amount == rec.released_amount + rec.spec_release(now));
        }
        lemma_conservation(stepped, times.drop_first());
        lemma_released_monotonic(stepped, times.drop_first());
    }
}

/// Idempotent full vesting: once the schedule's time has fully elapsed —
/// `now >= end_time` for the continuous shape, every schedule week elapsed
/// for the stepped shape — a single unlock attempt converges the ledger to
/// exactly the deposited total, and every later attempt past the cliff
/// fails with `FullyVested` and changes nothing.
pub proof fn lemma_full_vesting(rec: VaultInfo, now: u64)
    requires
        rec.wf(),
        now > rec.start_time,
        rec.schedule_shape is SteppedWeekly ==> rec.spec_weeks_elapsed(now)
            >= rec.spec_total_weeks(),
        rec.schedule_shape is ContinuousLinear ==> now >= rec.end_time,
    ensures
        rec.spec_unlock_step(now).released_amount == rec.total_amount,
        forall|later: u64|
            later > rec.start_time ==> rec.spec_unlock_step(now).spec_unlock_error(later)
                == Some(CustomError::FullyVested),
        forall|later: u64|
            later > rec.start_time ==> rec.spec_unlock_step(now).spec_unlock_step(later)
                == rec.spec_unlock_step(now),
{
    rec.lemma_entitled_full(now);
    let done = rec.spec_unlock_step(now);
    assert(done.released_amount == rec.total_amount);
    assert forall|later: u64| later > rec.start_time implies done.spec_unlock_error(later)
        == Some(CustomError::FullyVested) by {
        assert(done.start_time == rec.start_time);
    }
}

} // verus!
