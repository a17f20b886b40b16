//! The vesting schedule record and its creation-time validation.

use vstd::prelude::*;

verus! {

/// Errors raised by schedule creation and by claims.
#[derive(Clone, Copy, Debug, PartialEq, Eq)]
pub enum VestingError {
    /// Creation parameters do not describe a positive-duration schedule.
    InvalidSchedule,
    /// Creation parameters violate the amount invariants.
    InvalidAmount,
    /// A claim found nothing vested beyond what was already withdrawn.
    NoTokensToClaim,
    /// A checked arithmetic step could not be represented.
    ArithmeticError,
}

/// One vesting schedule: immutable parameters fixed at creation plus the
/// single mutable counter `withdrawn_amount`.
#[derive(Clone, Copy, Debug, PartialEq, Eq)]
pub struct VestingAccount {
    pub beneficiary: [u8; 32],
    pub mint: [u8; 32],
    pub start_ts: i64,
    pub end_ts: i64,
    pub initial_unlock_amount: u64,
    pub total_amount: u64,
    pub withdrawn_amount: u64,
    pub creator: [u8; 32],
}

impl VestingAccount {
    /// Serialized size of the record: three 32-byte identities, two 8-byte
    /// instants, and three 8-byte amounts.
    pub const SIZE: usize = 32 + 32 + 8 + 8 + 8 + 8 + 8 + 32;
}

/// The creation invariants: a positive duration, a positive total, and an
/// initial unlock no larger than the total.
pub open spec fn valid_schedule(a: VestingAccount) -> bool {
    &&& a.end_ts > a.start_ts
    &&& a.total_amount > 0
    &&& a.initial_unlock_amount <= a.total_amount
}

/// Validates the creation parameters and, if they hold, produces the new
/// schedule record with nothing withdrawn yet.
///
/// This is the only gate: parameters are immutable after creation.
pub fn initialize_vesting(
    beneficiary: [u8; 32],
    mint: [u8; 32],
    start_ts: i64,
    end_ts: i64,
    initial_unlock_amount: u64,
    total_amount: u64,
    creator: [u8; 32],
) -> (r: Result<VestingAccount, VestingError>)
    ensures
        end_ts <= start_ts ==> r == Err::<VestingAccount, VestingError>(
            VestingError::InvalidSchedule,
        ),
        end_ts > start_ts && (total_amount == 0 || initial_unlock_amount > total_amount)
            ==> r == Err::<VestingAccount, VestingError>(VestingError::InvalidAmount),
        end_ts > start_ts && total_amount > 0 && initial_unlock_amount <= total_amount ==> {
            &&& r matches Ok(a)
            &&& a.beneficiary == beneficiary
            &&& a.mint == mint
            &&& a.start_ts == start_ts
            &&& a.end_ts == end_ts
            &&& a.initial_unlock_amount == initial_unlock_amount
            &&& a.total_amount == total_amount
            &&& a.withdrawn_amount == 0
            &&& a.creator == creator
            &&& valid_schedule(a)
        },
{
    if end_ts <= start_ts {
        return Err(VestingError::InvalidSchedule);
    }
    if total_amount == 0 {
        return Err(VestingError::InvalidAmount);
    }
    if initial_unlock_amount > total_amount {
        return Err(VestingError::InvalidAmount);
    }
    Ok(VestingAccount {
        beneficiary,
        mint,
        start_ts,
        end_ts,
        initial_unlock_amount,
        total_amount,
        withdrawn_amount: 0,
        creator,
    })
}

} // verus!
