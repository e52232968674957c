use vstd::prelude::*;

use crate::errors::CustomError;
use crate::record::{ScheduleShape, VaultInfo, SECONDS_PER_WEEK};

verus! {

/// True when `r` is the record of the `(receiver_id, asset_id)` pair.
pub open spec fn key_matches(r: VaultInfo, receiver_id: u64, asset_id: u64) -> bool {
    r.receiver_id == receiver_id && r.asset_id == asset_id
}

/// Some record in `s` belongs to the `(receiver_id, asset_id)` pair.
pub open spec fn spec_has(s: Seq<VaultInfo>, receiver_id: u64, asset_id: u64) -> bool {
    exists|i: int| 0 <= i < s.len() && key_matches(#[trigger] s[i], receiver_id, asset_id)
}

/// The position of the pair's record in `s`; meaningful only when
/// `spec_has` holds.
pub open spec fn spec_index(s: Seq<VaultInfo>, receiver_id: u64, asset_id: u64) -> int {
    choose|i: int| 0 <= i < s.len() && key_matches(#[trigger] s[i], receiver_id, asset_id)
}

/// The pair's record in `s`; meaningful only when `spec_has` holds.
pub open spec fn spec_record(s: Seq<VaultInfo>, receiver_id: u64, asset_id: u64) -> VaultInfo {
    s[spec_index(s, receiver_id, asset_id)]
}

/// Every record in `s` is well formed.
pub open spec fn all_wf(s: Seq<VaultInfo>) -> bool {
    forall|i: int| 0 <= i < s.len() ==> (#[trigger] s[i]).wf()
}

/// No two records in `s` share a `(receiver_id, asset_id)` pair.
pub open spec fn keys_unique(s: Seq<VaultInfo>) -> bool {
    forall|p: int, q: int|
        0 <= p < q < s.len() ==> !key_matches(
            #[trigger] s[p],
            (#[trigger] s[q]).receiver_id,
            s[q].asset_id,
        )
}

/// In a sequence with unique keys, a position whose record matches the pair
/// is the position `spec_index` names.
pub proof fn lemma_found_index(s: Seq<VaultInfo>, receiver_id: u64, asset_id: u64, i: int)
    requires
        keys_unique(s),
        0 <= i < s.len(),
        key_matches(s[i], receiver_id, asset_id),
    ensures
        spec_has(s, receiver_id, asset_id),
        spec_index(s, receiver_id, asset_id) == i,
        spec_record(s, receiver_id, asset_id) == s[i],
{
    assert(spec_has(s, receiver_id, asset_id));
    let j = spec_index(s, receiver_id, asset_id);
    assert(0 <= j < s.len() && key_matches(s[j], receiver_id, asset_id));
    if i < j {
        assert(!key_matches(s[i], s[j].receiver_id, s[j].asset_id));
    } else if j < i {
        assert(!key_matches(s[j], s[i].receiver_id, s[i].asset_id));
    }
}

/// Why a lock for these inputs fails, or `None` when it is accepted.
pub open spec fn spec_lock_error(
    s: Seq<VaultInfo>,
    receiver_id: u64,
    asset_id: u64,
    start_time: u64,
    end_time: u64,
    schedule_shape: ScheduleShape,
) -> Option<CustomError> {
    if end_time <= start_time {
        Some(CustomError::InvalidScheduleOrder)
    } else if spec_has(s, receiver_id, asset_id) {
        Some(CustomError::DuplicateSchedule)
    } else if schedule_shape is SteppedWeekly && (end_time - start_time) / (SECONDS_PER_WEEK
        as int) < 1 {
        Some(CustomError::ScheduleTooShort)
    } else {
        None
    }
}

/// The record a successful lock for these inputs creates.
pub open spec fn spec_new_record(
    receiver_id: u64,
    asset_id: u64,
    amount: u64,
    start_time: u64,
    end_time: u64,
    schedule_shape: ScheduleShape,
) -> VaultInfo {
    VaultInfo {
        asset_id,
        receiver_id,
        total_amount: amount,
        released_amount: 0,
        start_time,
        end_time,
        schedule_shape,
    }
}

/// Why an unlock of the pair's record at `now` fails, or `None` when it
/// releases a positive amount.
pub open spec fn spec_unlock_error(
    s: Seq<VaultInfo>,
    receiver_id: u64,
    asset_id: u64,
    now: u64,
) -> Option<CustomError> {
    if !spec_has(s, receiver_id, asset_id) {
        Some(CustomError::ScheduleNotFound)
    } else {
        spec_record(s, receiver_id, asset_id).spec_unlock_error(now)
    }
}

/// The vesting engine: every vesting record, one per `(receiver_id,
/// asset_id)` pair, each a permanent ledger of its schedule's progress.
#[derive(Debug)]
pub struct Vesting {
    records: Vec<VaultInfo>,
}

impl View for Vesting {
    type V = Seq<VaultInfo>;

    closed spec fn view(&self) -> Seq<VaultInfo> {
        self.records@
    }
}

impl Vesting {
    /// The engine invariant: every record well formed, every pair unique.
    pub open spec fn wf(self) -> bool {
        all_wf(self@) && keys_unique(self@)
    }

    /// An engine with no records.
    pub fn new() -> (v: Vesting)
        ensures
            v@.len() == 0,
            v.wf(),
    {
        Vesting { records: Vec::new() }
    }

    /// The position of the pair's record, scanning in storage order.
    fn find_index(&self, receiver_id: u64, asset_id: u64) -> (r: Option<usize>)
        ensures
            match r {
                Some(i) => i < self@.len() && key_matches(self@[i as int], receiver_id, asset_id),
                None => !spec_has(self@, receiver_id, asset_id),
            },
    {
        let n = self.records.len();
        let mut i: usize = 0;
        while i < n
            invariant
                n == self@.len(),
                i <= n,
                forall|j: int| 0 <= j < i ==> !key_matches(#[trigger] self@[j], receiver_id, asset_id),
            decreases n - i,
        {
            let rec = self.records[i];
            if rec.receiver_id == receiver_id && rec.asset_id == asset_id {
                return Some(i);
            }
            i += 1;
        }
        None
    }

    /// The pair's record, readable by anyone; the engine's whole durable
    /// state is observable this way.
    pub fn get(&self, receiver_id: u64, asset_id: u64) -> (r: Option<VaultInfo>)
        requires
            self.wf(),
        ensures
            match r {
                Some(rec) => spec_has(self@, receiver_id, asset_id) && rec == spec_record(
                    self@,
                    receiver_id,
                    asset_id,
                ),
                None => !spec_has(self@, receiver_id, asset_id),
            },
    {
        match self.find_index(receiver_id, asset_id) {
            Some(i) => {
                proof {
                    lemma_found_index(self@, receiver_id, asset_id, i as int);
                }
                Some(self.records[i])
            },
            None => None,
        }
    }

    /// Validates a lock without changing anything: the checks a caller runs
    /// before moving the deposit into custody.
    pub fn check_lock(
        &self,
        receiver_id: u64,
        asset_id: u64,
        start_time: u64,
        end_time: u64,
        schedule_shape: ScheduleShape,
    ) -> (r: Result<(), CustomError>)
        ensures
            match r {
                Ok(()) => spec_lock_error(
                    self@,
                    receiver_id,
                    asset_id,
                    start_time,
                    end_time,
                    schedule_shape,
                ) is None,
                Err(e) => spec_lock_error(
                    self@,
                    receiver_id,
                    asset_id,
                    start_time,
                    end_time,
                    schedule_shape,
                ) == Some(e),
            },
    {
        if end_time <= start_time {
            return Err(CustomError::InvalidScheduleOrder);
        }
        match self.find_index(receiver_id, asset_id) {
            Some(_) => {
                return Err(CustomError::DuplicateSchedule);
            },
            None => {},
        }
        match schedule_shape {
            ScheduleShape::SteppedWeekly => {
                let weeks: u64 = (end_time - start_time) / SECONDS_PER_WEEK;
                if weeks == 0 {
                    return Err(CustomError::ScheduleTooShort);
                }
            },
            ScheduleShape::ContinuousLinear => {},
        }
        Ok(())
    }

    /// Establishes a new vesting record for the pair, with nothing released
    /// yet. The caller moves `amount` into custody only after this validates;
    /// on any error the engine is exactly as it was.
    pub fn lock(
        &mut self,
        receiver_id: u64,
        asset_id: u64,
        amount: u64,
        start_time: u64,
        end_time: u64,
        schedule_shape: ScheduleShape,
    ) -> (r: Result<(), CustomError>)
        requires
            old(self).wf(),
            amount > 0,
        ensures
            final(self).wf(),
            match r {
                Ok(()) => {
                    &&& spec_lock_error(
                        old(self)@,
                        receiver_id,
                        asset_id,
                        start_time,
                        end_time,
                        schedule_shape,
                    ) is None
                    &&& final(self)@ == old(self)@.push(
                        spec_new_record(
                            receiver_id,
                            asset_id,
                            amount,
                            start_time,
                            end_time,
                            schedule_shape,
                        ),
                    )
                },
                Err(e) => {
                    &&& spec_lock_error(
                        old(self)@,
                        receiver_id,
                        asset_id,
                        start_time,
                        end_time,
                        schedule_shape,
                    ) == Some(e)
                    &&& final(self)@ == old(self)@
                },
            },
    {
        match self.check_lock(receiver_id, asset_id, start_time, end_time, schedule_shape) {
            Err(e) => Err(e),
            Ok(()) => {
                let rec = VaultInfo {
                    asset_id,
                    receiver_id,
                    total_amount: amount,
                    released_amount: 0,
                    start_time,
                    end_time,
                    schedule_shape,
                };
                self.records.push(rec);
                proof {
                    let s = old(self)@;
                    let t = self@;
                    assert forall|i: int| 0 <= i < t.len() implies (#[trigger] t[i]).wf() by {
                        if i < s.len() {
                            assert(t[i] == s[i]);
                        } else {
                            assert(t[i] == rec);
                        }
                    }
                    assert forall|p: int, q: int| 0 <= p < q < t.len() implies !key_matches(
                        #[trigger] t[p],
                        (#[trigger] t[q]).receiver_id,
                        t[q].asset_id,
                    ) by {
                        assert(t[p] == s[p]);
                        if q < s.len() {
                            assert(t[q] == s[q]);
                        } else {
                            assert(t[q] == rec);
                            assert(!spec_has(s, receiver_id, asset_id));
                        }
                    }
                }
                Ok(())
            },
        }
    }

    /// Computes what an unlock of the pair at `now` would release, without
    /// changing anything: the amount a caller moves out of custody before
    /// committing the unlock.
    pub fn prepare_unlock(&self, receiver_id: u64, asset_id: u64, now: u64) -> (r: Result<
        u64,
        CustomError,
    >)
        requires
            self.wf(),
        ensures
            match r {
                Ok(amount) => {
                    &&& spec_unlock_error(self@, receiver_id, asset_id, now) is None
                    &&& spec_has(self@, receiver_id, asset_id)
                    &&& amount > 0
                    &&& amount as int == spec_record(self@, receiver_id, asset_id).spec_release(now)
                    &&& spec_record(self@, receiver_id, asset_id).released_amount + amount
                        <= spec_record(self@, receiver_id, asset_id).total_amount
                },
                Err(e) => spec_unlock_error(self@, receiver_id, asset_id, now) == Some(e),
            },
    {
        let i = match self.find_index(receiver_id, asset_id) {
            None => {
                return Err(CustomError::ScheduleNotFound);
            },
            Some(i) => i,
        };
        proof {
            lemma_found_index(self@, receiver_id, asset_id, i as int);
        }
        let rec = self.records[i];
        if now <= rec.start_time {
            return Err(CustomError::CliffNotPassed);
        }
        if rec.released_amount >= rec.total_amount {
            return Err(CustomError::FullyVested);
        }
        let release = rec.release_amount(now);
        if release == 0 {
            return Err(CustomError::NothingToRelease);
        }
        Ok(release)
    }

    /// Commits an unlock: recomputes exactly what `prepare_unlock` reported
    /// and advances the pair's ledger by that amount. On any error the
    /// engine is exactly as it was; no other record is ever touched.
    pub fn unlock(&mut self, receiver_id: u64, asset_id: u64, now: u64) -> (r: Result<
        u64,
        CustomError,
    >)
        requires
            old(self).wf(),
        ensures
            final(self).wf(),
            match r {
                Ok(amount) => {
                    &&& spec_unlock_error(old(self)@, receiver_id, asset_id, now) is None
                    &&& spec_has(old(self)@, receiver_id, asset_id)
                    &&& amount > 0
                    &&& amount as int == spec_record(
                        old(self)@,
                        receiver_id,
                        asset_id,
                    ).spec_release(now)
                    &&& final(self)@ == old(self)@.update(
                        spec_index(old(self)@, receiver_id, asset_id),
                        spec_record(old(self)@, receiver_id, asset_id).spec_unlock_step(now),
                    )
                },
                Err(e) => {
                    &&& spec_unlock_error(old(self)@, receiver_id, asset_id, now) == Some(e)
                    &&& final(self)@ == old(self)@
                },
            },
    {
        let i = match self.find_index(receiver_id, asset_id) {
            None => {
                return Err(CustomError::ScheduleNotFound);
            },
            Some(i) => i,
        };
        proof {
            lemma_found_index(self@, receiver_id, asset_id, i as int);
        }
        let rec = self.records[i];
        if now <= rec.start_time {
            return Err(CustomError::CliffNotPassed);
        }
        if rec.released_amount >= rec.total_amount {
            return Err(CustomError::FullyVested);
        }
        let release = rec.release_amount(now);
        if release == 0 {
            return Err(CustomError::NothingToRelease);
        }
        let updated = VaultInfo { released_amount: rec.released_amount + release, ..rec };
        self.records.set(i, updated);
        proof {
            let s = old(self)@;
            let t = self@;
            assert(updated == rec.spec_unlock_step(now));
            rec.lemma_step_wf(now);
            assert forall|j: int| 0 <= j < t.len() implies (#[trigger] t[j]).wf() by {
                if j != i as int {
                    assert(t[j] == s[j]);
                }
            }
            assert forall|p: int, q: int| 0 <= p < q < t.len() implies !key_matches(
                #[trigger] t[p],
                (#[trigger] t[q]).receiver_id,
                t[q].asset_id,
            ) by {
                if p != i as int {
                    assert(t[p] == s[p]);
                }
                if q != i as int {
                    assert(t[q] == s[q]);
                }
            }
        }
        Ok(release)
    }
}

} // verus!
