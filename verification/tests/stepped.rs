use vesting::record::SECONDS_PER_WEEK;
use vesting::{CustomError, ScheduleShape, VaultInfo, Vesting};

const T: u64 = 1_700_000_000;
const WEEK: u64 = SECONDS_PER_WEEK;

fn engine_with_lock(total: u64, weeks: u64) -> Vesting {
    let mut v = Vesting::new();
    v.lock(7, 42, total, T, T + WEEK * weeks, ScheduleShape::SteppedWeekly)
        .expect("lock must succeed");
    v
}

#[test]
fn stepped_weekly_scenario() {
    let mut v = engine_with_lock(700, 7);
    assert_eq!(v.unlock(7, 42, T + WEEK * 2 + 1), Ok(200));
    assert_eq!(v.get(7, 42).unwrap().released_amount, 200);
}

#[test]
fn stepped_same_week_releases_nothing_twice() {
    let mut v = engine_with_lock(700, 7);
    assert_eq!(v.unlock(7, 42, T + WEEK * 3), Ok(300));
    assert_eq!(
        v.unlock(7, 42, T + WEEK * 3 + 12345),
        Err(CustomError::NothingToRelease)
    );
    assert_eq!(v.get(7, 42).unwrap().released_amount, 300);
}

#[test]
fn stepped_weeks_capped_at_schedule_end() {
    let mut v = engine_with_lock(700, 7);
    assert_eq!(v.unlock(7, 42, T + WEEK * 100), Ok(700));
    assert_eq!(
        v.unlock(7, 42, T + WEEK * 200),
        Err(CustomError::FullyVested)
    );
    assert_eq!(v.get(7, 42).unwrap().released_amount, 700);
}

#[test]
fn stepped_first_week_releases_nothing() {
    let mut v = engine_with_lock(700, 7);
    assert_eq!(
        v.unlock(7, 42, T + WEEK - 1),
        Err(CustomError::NothingToRelease)
    );
}

#[test]
fn stepped_rounding_converges_to_total() {
    // 100 over 7 weeks does not divide evenly; the weekly floors must still
    // sum to exactly 100 by the end.
    let mut v = engine_with_lock(100, 7);
    let mut sum: u64 = 0;
    for week in 1..=7u64 {
        match v.unlock(7, 42, T + WEEK * week) {
            Ok(got) => sum += got,
            Err(e) => panic!("week {} failed: {:?}", week, e),
        }
    }
    assert_eq!(sum, 100);
    assert_eq!(v.get(7, 42).unwrap().released_amount, 100);
}

#[test]
fn stepped_entitlement_formula() {
    let rec = VaultInfo {
        asset_id: 42,
        receiver_id: 7,
        total_amount: 100,
        released_amount: 0,
        start_time: T,
        end_time: T + WEEK * 7,
        schedule_shape: ScheduleShape::SteppedWeekly,
    };
    assert_eq!(rec.total_weeks(), 7);
    assert_eq!(rec.entitlement_to_date(T), 0);
    assert_eq!(rec.entitlement_to_date(T + WEEK - 1), 0);
    assert_eq!(rec.entitlement_to_date(T + WEEK), 14);
    assert_eq!(rec.entitlement_to_date(T + WEEK * 2), 28);
    assert_eq!(rec.entitlement_to_date(T + WEEK * 6), 85);
    assert_eq!(rec.entitlement_to_date(T + WEEK * 7), 100);
    assert_eq!(rec.entitlement_to_date(T + WEEK * 9), 100);
}

#[test]
fn stepped_largest_amount_no_overflow() {
    let mut v = engine_with_lock(u64::MAX, 4);
    assert_eq!(v.unlock(7, 42, T + WEEK * 2), Ok(u64::MAX / 2));
    assert_eq!(v.unlock(7, 42, T + WEEK * 4), Ok(u64::MAX - u64::MAX / 2));
    assert_eq!(v.get(7, 42).unwrap().released_amount, u64::MAX);
}

#[test]
fn stepped_schedule_of_partial_weeks_truncates() {
    // Nine and a half weeks count as nine: the last half week never vests
    // anything beyond week nine's entitlement.
    let mut v = Vesting::new();
    v.lock(7, 42, 900, T, T + WEEK * 9 + WEEK / 2, ScheduleShape::SteppedWeekly)
        .expect("lock must succeed");
    assert_eq!(v.unlock(7, 42, T + WEEK * 9), Ok(900));
}
