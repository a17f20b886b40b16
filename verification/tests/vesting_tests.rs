use tvp::claim::claim;
use tvp::schedule::{initialize_vesting, VestingAccount, VestingError};
use tvp::vesting::calculate_vested_amount;

fn schedule(
    start_ts: i64,
    end_ts: i64,
    initial_unlock_amount: u64,
    total_amount: u64,
) -> VestingAccount {
    initialize_vesting(
        [1u8; 32],
        [2u8; 32],
        start_ts,
        end_ts,
        initial_unlock_amount,
        total_amount,
        [3u8; 32],
    )
    .expect("a valid schedule")
}

#[test]
fn initialize_fills_the_record() {
    let a = schedule(1000, 2000, 100, 1000);
    assert_eq!(a.beneficiary, [1u8; 32]);
    assert_eq!(a.mint, [2u8; 32]);
    assert_eq!(a.start_ts, 1000);
    assert_eq!(a.end_ts, 2000);
    assert_eq!(a.initial_unlock_amount, 100);
    assert_eq!(a.total_amount, 1000);
    assert_eq!(a.withdrawn_amount, 0);
    assert_eq!(a.creator, [3u8; 32]);
}

#[test]
fn initialize_rejects_end_not_after_start() {
    let r = initialize_vesting([1u8; 32], [2u8; 32], 2000, 1000, 0, 100, [3u8; 32]);
    assert_eq!(r, Err(VestingError::InvalidSchedule));
    let r = initialize_vesting([1u8; 32], [2u8; 32], 1000, 1000, 0, 100, [3u8; 32]);
    assert_eq!(r, Err(VestingError::InvalidSchedule));
}

#[test]
fn initialize_rejects_zero_total() {
    let r = initialize_vesting([1u8; 32], [2u8; 32], 1000, 2000, 0, 0, [3u8; 32]);
    assert_eq!(r, Err(VestingError::InvalidAmount));
}

#[test]
fn initialize_rejects_unlock_beyond_total() {
    let r = initialize_vesting([1u8; 32], [2u8; 32], 1000, 2000, 1001, 1000, [3u8; 32]);
    assert_eq!(r, Err(VestingError::InvalidAmount));
}

#[test]
fn nothing_vests_before_start() {
    assert_eq!(calculate_vested_amount(1000, 100, 1000, 2000, 999), Ok(0));
    assert_eq!(calculate_vested_amount(1000, 100, 1000, 2000, i64::MIN), Ok(0));
}

#[test]
fn initial_unlock_is_available_at_start() {
    assert_eq!(calculate_vested_amount(1000, 100, 1000, 2000, 1000), Ok(100));
}

#[test]
fn linear_ramp_midpoint() {
    // 100 + 900 * 500 / 1000 = 550
    assert_eq!(calculate_vested_amount(1000, 100, 1000, 2000, 1500), Ok(550));
}

#[test]
fn proportional_term_rounds_down() {
    // 0 + 10 * 1 / 3 = 3 (floor)
    assert_eq!(calculate_vested_amount(10, 0, 0, 3, 1), Ok(3));
    // 100 + 900 * 1 / 1000 = 100 (the 0.9 truncates)
    assert_eq!(calculate_vested_amount(1000, 100, 1000, 2000, 1001), Ok(100));
}

#[test]
fn everything_vests_from_end_on() {
    assert_eq!(calculate_vested_amount(1000, 100, 1000, 2000, 2000), Ok(1000));
    assert_eq!(calculate_vested_amount(1000, 100, 1000, 2000, i64::MAX), Ok(1000));
}

#[test]
fn vested_is_monotonic_across_the_ramp() {
    let mut last = 0u64;
    for now in 900..2100 {
        let v = calculate_vested_amount(1000, 100, 1000, 2000, now).unwrap();
        assert!(v >= last);
        assert!(v <= 1000);
        last = v;
    }
    assert_eq!(last, 1000);
}

#[test]
fn widened_multiplication_cannot_overflow() {
    // A full-range amount over a full-range duration: the proportional
    // product only fits a 128-bit intermediate.
    let v = calculate_vested_amount(u64::MAX, 0, i64::MIN, i64::MAX, 0).unwrap();
    assert_eq!(v, 9223372036854775808);
}

#[test]
fn calculator_detects_unlock_beyond_total_on_the_ramp() {
    assert_eq!(
        calculate_vested_amount(1000, 1001, 1000, 2000, 1500),
        Err(VestingError::ArithmeticError)
    );
    // Off the ramp the saturation branches answer first.
    assert_eq!(calculate_vested_amount(1000, 1001, 1000, 2000, 999), Ok(0));
    assert_eq!(calculate_vested_amount(1000, 1001, 1000, 2000, 2000), Ok(1000));
}

#[test]
fn claim_before_start_has_nothing_to_claim() {
    let mut a = schedule(1000, 2000, 100, 1000);
    assert_eq!(claim(&mut a, 500), Err(VestingError::NoTokensToClaim));
    assert_eq!(a.withdrawn_amount, 0);
}

#[test]
fn claim_releases_the_vested_delta() {
    let mut a = schedule(1000, 2000, 100, 1000);
    assert_eq!(claim(&mut a, 1500), Ok(550));
    assert_eq!(a.withdrawn_amount, 550);
    assert_eq!(claim(&mut a, 2000), Ok(450));
    assert_eq!(a.withdrawn_amount, 1000);
}

#[test]
fn second_claim_at_same_instant_is_inert() {
    let mut a = schedule(1000, 2000, 100, 1000);
    assert_eq!(claim(&mut a, 1500), Ok(550));
    let before = a;
    assert_eq!(claim(&mut a, 1500), Err(VestingError::NoTokensToClaim));
    assert_eq!(a, before);
}

#[test]
fn claims_at_increasing_times_sum_to_the_final_vested_amount() {
    let mut a = schedule(1000, 2000, 100, 1000);
    let mut released = 0u64;
    for now in [1000, 1200, 1201, 1650, 1999, 2300] {
        match claim(&mut a, now) {
            Ok(c) => {
                assert!(c > 0);
                released += c;
            }
            Err(e) => assert_eq!(e, VestingError::NoTokensToClaim),
        }
    }
    assert_eq!(released, 1000);
    assert_eq!(a.withdrawn_amount, 1000);
}

#[test]
fn claim_when_fully_withdrawn_is_rejected() {
    let mut a = schedule(1000, 2000, 100, 1000);
    assert_eq!(claim(&mut a, 3000), Ok(1000));
    assert_eq!(claim(&mut a, 4000), Err(VestingError::NoTokensToClaim));
    assert_eq!(a.withdrawn_amount, 1000);
}

#[test]
fn claim_detects_withdrawn_beyond_vested() {
    // A corrupted record: more withdrawn than has vested. The inconsistency
    // is detected, never wrapped.
    let mut a = schedule(1000, 2000, 100, 1000);
    a.withdrawn_amount = 900;
    assert_eq!(claim(&mut a, 1500), Err(VestingError::ArithmeticError));
    assert_eq!(a.withdrawn_amount, 900);
}

#[test]
fn full_unlock_at_start_vests_everything_at_once() {
    let mut a = schedule(1000, 2000, 1000, 1000);
    assert_eq!(claim(&mut a, 1000), Ok(1000));
    assert_eq!(claim(&mut a, 1500), Err(VestingError::NoTokensToClaim));
}
