//! The claim state transition: turning vested into withdrawn exactly once
//! per unit of asset.

use vstd::prelude::*;

use crate::schedule::{valid_schedule, VestingAccount, VestingError};
use crate::vesting::{
    calculate_vested_amount, lemma_vested_bounds, lemma_vested_monotonic, vested_amount_spec,
};

verus! {

/// The vested amount of a schedule record at `now`. It depends only on the
/// immutable creation parameters, never on `withdrawn_amount`.
pub open spec fn account_vested(a: VestingAccount, now: int) -> int {
    vested_amount_spec(
        a.total_amount as int,
        a.initial_unlock_amount as int,
        a.start_ts as int,
        a.end_ts as int,
        now,
    )
}

/// Whether a claim at `now` gets past its checked arithmetic: the calculator
/// only subtracts the initial unlock from the total on the linear ramp, and
/// the claim then subtracts the withdrawn amount from the vested amount.
/// Both succeed on every reachable state; a violation is detected rather
/// than wrapped.
pub open spec fn claim_computes(a: VestingAccount, now: int) -> bool {
    &&& (now < a.start_ts || now >= a.end_ts || a.initial_unlock_amount <= a.total_amount)
    &&& a.withdrawn_amount as int <= account_vested(a, now)
}

/// The claim transition on a schedule record: the amount released and the
/// record afterwards. A rejected claim (nothing claimable, or an arithmetic
/// inconsistency) releases nothing and leaves the record untouched; a
/// successful one releases exactly the vested amount not yet withdrawn and
/// records it as withdrawn.
pub open spec fn spec_claim(a: VestingAccount, now: int) -> (int, VestingAccount) {
    if !claim_computes(a, now) {
        (0, a)
    } else if account_vested(a, now) == a.withdrawn_amount as int {
        (0, a)
    } else {
        (
            account_vested(a, now) - a.withdrawn_amount as int,
            VestingAccount { withdrawn_amount: account_vested(a, now) as u64, ..a },
        )
    }
}

/// Processes one claim against `account` at instant `now`.
///
/// On success the returned amount is exactly what had vested beyond the
/// recorded withdrawals, and the record commits it; on any error the record
/// is untouched. A claim with nothing claimable is rejected with
/// `NoTokensToClaim` rather than released as a zero-value transfer, and a
/// state where withdrawals exceed the vested amount is detected as
/// `ArithmeticError` rather than wrapped.
pub fn claim(account: &mut VestingAccount, now: i64) -> (r: Result<u64, VestingError>)
    ensures
        *final(account) == spec_claim(*old(account), now as int).1,
        r matches Ok(c) ==> c as int == spec_claim(*old(account), now as int).0 && c > 0,
        r is Err ==> *final(account) == *old(account) && spec_claim(
            *old(account),
            now as int,
        ).0 == 0,
        r is Ok <==> claim_computes(*old(account), now as int) && account_vested(
            *old(account),
            now as int,
        ) > old(account).withdrawn_amount as int,
        r == Err::<u64, VestingError>(VestingError::NoTokensToClaim) <==> claim_computes(
            *old(account),
            now as int,
        ) && account_vested(*old(account), now as int) == old(account).withdrawn_amount as int,
        r == Err::<u64, VestingError>(VestingError::ArithmeticError) <==> !claim_computes(
            *old(account),
            now as int,
        ),
        final(account).withdrawn_amount >= old(account).withdrawn_amount,
{
    let vested_amount = match calculate_vested_amount(
        account.total_amount,
        account.initial_unlock_amount,
        account.start_ts,
        account.end_ts,
        now,
    ) {
        Ok(v) => v,
        Err(_) => {
            return Err(VestingError::ArithmeticError);
        },
    };
    if vested_amount < account.withdrawn_amount {
        return Err(VestingError::ArithmeticError);
    }
    let claimable_amount = vested_amount - account.withdrawn_amount;
    if claimable_amount == 0 {
        return Err(VestingError::NoTokensToClaim);
    }
    account.withdrawn_amount = account.withdrawn_amount + claimable_amount;
    Ok(claimable_amount)
}

/// A claim never touches the schedule parameters, and moves the withdrawn
/// counter only upward, never past the total: the record invariants are
/// preserved by every claim, successful or rejected.
pub proof fn lemma_claim_preserves_invariants(a: VestingAccount, now: int)
    requires
        valid_schedule(a),
        a.withdrawn_amount <= a.total_amount,
    ensures
        ({
            let a1 = spec_claim(a, now).1;
            &&& valid_schedule(a1)
            &&& a1.withdrawn_amount >= a.withdrawn_amount
            &&& a1.withdrawn_amount <= a.total_amount
            &&& a1.beneficiary == a.beneficiary
            &&& a1.mint == a.mint
            &&& a1.creator == a.creator
            &&& a1.start_ts == a.start_ts
            &&& a1.end_ts == a.end_ts
            &&& a1.initial_unlock_amount == a.initial_unlock_amount
            &&& a1.total_amount == a.total_amount
        }),
{
    lemma_vested_bounds(
        a.total_amount as int,
        a.initial_unlock_amount as int,
        a.start_ts as int,
        a.end_ts as int,
        now,
    );
}

/// Once everything has been withdrawn the schedule is terminal: at any
/// instant whatever, a further claim releases nothing and leaves the record
/// untouched.
pub proof fn lemma_fully_withdrawn_is_terminal(a: VestingAccount, now: int)
    requires
        valid_schedule(a),
        a.withdrawn_amount == a.total_amount,
    ensures
        spec_claim(a, now).0 == 0,
        spec_claim(a, now).1 == a,
{
    lemma_vested_bounds(
        a.total_amount as int,
        a.initial_unlock_amount as int,
        a.start_ts as int,
        a.end_ts as int,
        now,
    );
}

/// Claiming twice in immediate succession at the same instant releases
/// something on at most the first of the two calls: a successful claim
/// leaves the record with nothing claimable at that instant, so the second
/// claim is the `NoTokensToClaim` rejection, and leaves the record as the
/// first call left it.
pub proof fn lemma_second_claim_inert(a: VestingAccount, now: int)
    ensures
        spec_claim(spec_claim(a, now).1, now).0 == 0,
        spec_claim(spec_claim(a, now).1, now).1 == spec_claim(a, now).1,
        spec_claim(a, now).0 > 0 ==> claim_computes(spec_claim(a, now).1, now)
            && account_vested(spec_claim(a, now).1, now) == spec_claim(
            a,
            now,
        ).1.withdrawn_amount as int,
{
    let v = account_vested(a, now);
    let a1 = spec_claim(a, now).1;
    if claim_computes(a, now) && v > a.withdrawn_amount as int {
        if a.start_ts as int <= now < a.end_ts as int {
            lemma_vested_bounds(
                a.total_amount as int,
                a.initial_unlock_amount as int,
                a.start_ts as int,
                a.end_ts as int,
                now,
            );
        }
        assert(a1.withdrawn_amount as int == v);
        assert(account_vested(a1, now) == v);
    }
}

/// The releases of a run of claims, folded left to right: the total amount
/// released and the record after the last claim.
pub open spec fn run_claims(a: VestingAccount, times: Seq<int>) -> (int, VestingAccount)
    decreases times.len(),
{
    if times.len() == 0 {
        (0, a)
    } else {
        let first = spec_claim(a, times[0]);
        let rest = run_claims(first.1, times.drop_first());
        (first.0 + rest.0, rest.1)
    }
}

/// Across any run of claims at strictly increasing instants, starting from a
/// record whose withdrawn counter does not exceed what is vested at the
/// first instant, the released amounts sum to exactly the vested amount at
/// the last instant minus the withdrawn amount at the outset: no value is
/// lost or duplicated across claims.
pub proof fn lemma_claim_sum(a: VestingAccount, times: Seq<int>)
    requires
        valid_schedule(a),
        times.len() > 0,
        forall|i: int, j: int| 0 <= i < j < times.len() ==> times[i] < times[j],
        a.withdrawn_amount as int <= account_vested(a, times[0]),
    ensures
        run_claims(a, times).0 == account_vested(a, times.last()) - a.withdrawn_amount as int,
        run_claims(a, times).1.withdrawn_amount as int == account_vested(a, times.last()),
    decreases times.len(),
{
    let t0 = times[0];
    let v0 = account_vested(a, t0);
    lemma_vested_bounds(
        a.total_amount as int,
        a.initial_unlock_amount as int,
        a.start_ts as int,
        a.end_ts as int,
        t0,
    );
    let a1 = spec_claim(a, t0).1;
    assert(a1.withdrawn_amount as int == v0);
    assert(spec_claim(a, t0).0 == v0 - a.withdrawn_amount as int);
    if times.len() == 1 {
        assert(times.last() == t0);
        assert(times.drop_first().len() == 0);
        assert(run_claims(a1, times.drop_first()) == (0int, a1));
        assert(run_claims(a, times) == (spec_claim(a, t0).0, a1));
    } else {
        let rest = times.drop_first();
        assert forall|i: int, j: int| 0 <= i < j < rest.len() implies rest[i] < rest[j] by {
            assert(times[i + 1] < times[j + 1]);
        }
        assert(rest[0] == times[1]);
        lemma_vested_monotonic(
            a.total_amount as int,
            a.initial_unlock_amount as int,
            a.start_ts as int,
            a.end_ts as int,
            t0,
            times[1],
        );
        assert(account_vested(a1, rest[0]) == account_vested(a, times[1]));
        lemma_claim_sum(a1, rest);
        assert(rest.last() == times.last());
        assert(account_vested(a1, times.last()) == account_vested(a, times.last()));
        assert(run_claims(a, times).0 == spec_claim(a, t0).0 + run_claims(a1, rest).0);
        assert(run_claims(a, times).1 == run_claims(a1, rest).1);
    }
}

} // verus!
