use vesting::{CustomError, ScheduleShape, VaultInfo, Vesting};

const T: u64 = 1_700_000_000;

fn engine_with_lock(total: u64, start: u64, end: u64) -> Vesting {
    let mut v = Vesting::new();
    v.lock(7, 42, total, start, end, ScheduleShape::ContinuousLinear)
        .expect("lock must succeed");
    v
}

#[test]
fn continuous_linear_scenario() {
    let mut v = engine_with_lock(1_000_000, T, T + 1_000_000);

    assert_eq!(v.unlock(7, 42, T + 250_000), Ok(250_000));
    assert_eq!(v.get(7, 42).unwrap().released_amount, 250_000);

    assert_eq!(v.unlock(7, 42, T + 500_000), Ok(250_000));
    assert_eq!(v.get(7, 42).unwrap().released_amount, 500_000);

    assert_eq!(v.unlock(7, 42, T + 2_000_000), Ok(500_000));
    assert_eq!(v.get(7, 42).unwrap().released_amount, 1_000_000);

    assert_eq!(
        v.unlock(7, 42, T + 2_000_001),
        Err(CustomError::FullyVested)
    );
    assert_eq!(v.get(7, 42).unwrap().released_amount, 1_000_000);
}

#[test]
fn continuous_full_release_at_exact_end() {
    let mut v = engine_with_lock(12_345, T, T + 1000);
    assert_eq!(v.unlock(7, 42, T + 1000), Ok(12_345));
    assert_eq!(v.get(7, 42).unwrap().released_amount, 12_345);
}

#[test]
fn continuous_rounds_down_to_nothing() {
    // 10 units over a million seconds: five seconds in, the entitlement
    // truncates to zero and there is nothing to release yet.
    let mut v = engine_with_lock(10, T, T + 1_000_000);
    assert_eq!(
        v.unlock(7, 42, T + 5),
        Err(CustomError::NothingToRelease)
    );
    assert_eq!(v.get(7, 42).unwrap().released_amount, 0);
}

#[test]
fn continuous_largest_amount_no_overflow() {
    let mut v = engine_with_lock(u64::MAX, T, T + 1_000_000);
    assert_eq!(v.unlock(7, 42, T + 500_000), Ok(u64::MAX / 2));
    assert_eq!(v.unlock(7, 42, T + 1_000_000), Ok(u64::MAX - u64::MAX / 2));
    assert_eq!(v.get(7, 42).unwrap().released_amount, u64::MAX);
    assert_eq!(
        v.unlock(7, 42, T + 1_000_001),
        Err(CustomError::FullyVested)
    );
}

#[test]
fn continuous_entitlement_formula() {
    let rec = VaultInfo {
        asset_id: 42,
        receiver_id: 7,
        total_amount: 1000,
        released_amount: 0,
        start_time: T,
        end_time: T + 4000,
        schedule_shape: ScheduleShape::ContinuousLinear,
    };
    assert_eq!(rec.entitlement_to_date(T), 0);
    assert_eq!(rec.entitlement_to_date(T + 1), 0);
    assert_eq!(rec.entitlement_to_date(T + 4), 1);
    assert_eq!(rec.entitlement_to_date(T + 1000), 250);
    assert_eq!(rec.entitlement_to_date(T + 3999), 999);
    assert_eq!(rec.entitlement_to_date(T + 4000), 1000);
    assert_eq!(rec.entitlement_to_date(T + 40_000), 1000);
}

#[test]
fn continuous_release_amount_saturates() {
    // A ledger momentarily ahead of the entitlement yields zero, never an
    // underflow.
    let rec = VaultInfo {
        asset_id: 42,
        receiver_id: 7,
        total_amount: 1000,
        released_amount: 600,
        start_time: T,
        end_time: T + 4000,
        schedule_shape: ScheduleShape::ContinuousLinear,
    };
    assert_eq!(rec.release_amount(T + 1000), 0);
    assert_eq!(rec.release_amount(T + 4000), 400);
}
