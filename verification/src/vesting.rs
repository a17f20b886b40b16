//! The vesting calculator: how much of a schedule has vested at an instant.

use vstd::arithmetic::div_mod::{
    lemma_div_is_ordered, lemma_div_pos_is_pos, lemma_multiply_divide_le,
};
use vstd::arithmetic::mul::{lemma_mul_inequality, lemma_mul_nonnegative, lemma_mul_upper_bound};
use vstd::prelude::*;

use crate::schedule::VestingError;

verus! {

/// The cumulative amount vested at `now`, as a piecewise-linear ramp:
/// nothing before `start`, everything from `end` on, and in between the
/// initial unlock plus a proportional share of the remainder, with the
/// proportional term rounded down.
pub open spec fn vested_amount_spec(
    total: int,
    initial_unlock: int,
    start: int,
    end: int,
    now: int,
) -> int {
    if now < start {
        0
    } else if now >= end {
        total
    } else {
        initial_unlock + (total - initial_unlock) * (now - start) / (end - start)
    }
}

/// Computes `vested_amount_spec` on machine integers, widening the
/// proportional multiplication so that it cannot overflow before the
/// division.
///
/// For every input with `initial_unlock_amount <= total_amount` the result is
/// `Ok` and exactly the specified amount. The only arithmetic failure is
/// `total_amount - initial_unlock_amount` underflowing, and only the ramp
/// branch reaches that subtraction: before the start and from the end on the
/// saturation branches answer first.
pub fn calculate_vested_amount(
    total_amount: u64,
    initial_unlock_amount: u64,
    start_ts: i64,
    end_ts: i64,
    current_ts: i64,
) -> (r: Result<u64, VestingError>)
    ensures
        initial_unlock_amount <= total_amount ==> {
            &&& r matches Ok(v)
            &&& v as int == vested_amount_spec(
                total_amount as int,
                initial_unlock_amount as int,
                start_ts as int,
                end_ts as int,
                current_ts as int,
            )
        },
        current_ts < start_ts ==> r == Ok::<u64, VestingError>(0u64),
        current_ts >= start_ts && current_ts >= end_ts ==> r == Ok::<u64, VestingError>(
            total_amount,
        ),
        r is Err <==> (start_ts <= current_ts && current_ts < end_ts && initial_unlock_amount
            > total_amount),
        r is Err ==> r == Err::<u64, VestingError>(VestingError::ArithmeticError),
{
    if current_ts < start_ts {
        return Ok(0);
    }
    if current_ts >= end_ts {
        return Ok(total_amount);
    }
    // Here start_ts <= current_ts < end_ts, so the duration is positive.
    if initial_unlock_amount > total_amount {
        return Err(VestingError::ArithmeticError);
    }
    let vesting_amount: u64 = total_amount - initial_unlock_amount;
    let time_passed: u128 = (current_ts as i128 - start_ts as i128) as u128;
    let vesting_duration: u128 = (end_ts as i128 - start_ts as i128) as u128;

    proof {
        lemma_mul_upper_bound(
            vesting_amount as int,
            u64::MAX as int,
            time_passed as int,
            u64::MAX as int,
        );
    }
    let product: u128 = (vesting_amount as u128) * time_passed;
    let quotient: u128 = product / vesting_duration;

    proof {
        lemma_mul_nonnegative(vesting_amount as int, time_passed as int);
        lemma_div_pos_is_pos(product as int, vesting_duration as int);
        lemma_mul_inequality(
            time_passed as int,
            vesting_duration as int,
            vesting_amount as int,
        );
        lemma_multiply_divide_le(
            product as int,
            vesting_duration as int,
            vesting_amount as int,
        );
    }
    let vested: u64 = initial_unlock_amount + (quotient as u64);
    Ok(vested)
}

/// Before the start instant nothing has vested, the immediate unlock
/// included.
pub proof fn lemma_vested_before_start(
    total: int,
    initial_unlock: int,
    start: int,
    end: int,
    now: int,
)
    requires
        now < start,
    ensures
        vested_amount_spec(total, initial_unlock, start, end, now) == 0,
{
}

/// From the end instant on the whole total has vested, however far past the
/// end the clock is.
pub proof fn lemma_vested_after_end(
    total: int,
    initial_unlock: int,
    start: int,
    end: int,
    now: int,
)
    requires
        start < end,
        now >= end,
    ensures
        vested_amount_spec(total, initial_unlock, start, end, now) == total,
{
}

/// The vested amount never leaves `[0, total]`.
pub proof fn lemma_vested_bounds(
    total: int,
    initial_unlock: int,
    start: int,
    end: int,
    now: int,
)
    requires
        start < end,
        0 <= initial_unlock <= total,
    ensures
        0 <= vested_amount_spec(total, initial_unlock, start, end, now) <= total,
{
    if start <= now < end {
        let v = total - initial_unlock;
        let t = now - start;
        let d = end - start;
        lemma_mul_nonnegative(v, t);
        lemma_div_pos_is_pos(v * t, d);
        lemma_mul_inequality(t, d, v);
        lemma_multiply_divide_le(v * t, d, v);
    }
}

/// For a fixed valid schedule the vested amount is monotonically
/// non-decreasing in the clock.
pub proof fn lemma_vested_monotonic(
    total: int,
    initial_unlock: int,
    start: int,
    end: int,
    now1: int,
    now2: int,
)
    requires
        start < end,
        0 <= initial_unlock <= total,
        now1 <= now2,
    ensures
        vested_amount_spec(total, initial_unlock, start, end, now1) <= vested_amount_spec(
            total,
            initial_unlock,
            start,
            end,
            now2,
        ),
{
    lemma_vested_bounds(total, initial_unlock, start, end, now1);
    lemma_vested_bounds(total, initial_unlock, start, end, now2);
    if start <= now1 < end && start <= now2 < end {
        let v = total - initial_unlock;
        let t1 = now1 - start;
        let t2 = now2 - start;
        let d = end - start;
        lemma_mul_inequality(t1, t2, v);
        lemma_div_is_ordered(v * t1, v * t2, d);
    }
}

} // verus!
