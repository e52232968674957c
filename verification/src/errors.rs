use vstd::prelude::*;

verus! {

/// Every way a lock or unlock operation can fail.
///
/// The first four are validation errors: the caller's input is wrong and a
/// retry with the same input fails again. `CliffNotPassed` and
/// `NothingToRelease` are timing conditions: the same call can succeed once
/// more time has elapsed. `FullyVested` marks a schedule that has already
/// released everything it ever will.
#[derive(Clone, Copy, Debug, PartialEq, Eq, Structural)]
pub enum CustomError {
    /// The requested schedule has `end_time <= start_time`.
    InvalidScheduleOrder,
    /// A stepped-weekly schedule spans less than one full week.
    ScheduleTooShort,
    /// A vesting record for this `(receiver_id, asset_id)` pair already exists.
    DuplicateSchedule,
    /// No vesting record exists for this `(receiver_id, asset_id)` pair.
    ScheduleNotFound,
    /// The current time has not yet passed the schedule's start time.
    CliffNotPassed,
    /// The schedule has released nothing new since the last unlock.
    NothingToRelease,
    /// The schedule has already released its whole amount.
    FullyVested,
}

} // verus!
