use vstd::prelude::*;
use vstd::arithmetic::div_mod::{lemma_div_denominator, lemma_div_is_ordered};
use crate::account::StakeAccount;
use crate::error::StakeError;

verus! {

/// Points that one whole unit of the asset earns in a day, which is also
/// the scale of the fixed-point point totals.
pub const POINTS_PER_SOL_PER_DAY: u64 = 1_000_000;

/// Smallest currency units in one whole unit of the asset.
pub const LAMPORTS_PER_SOL: u64 = 1_000_000_000;

/// Seconds in a day.
pub const SECONDS_PER_DAY: u64 = 86_400;

/// The points that `staked_amount` earns in `elapsed_seconds`, rounded down.
pub open spec fn points_earned(staked_amount: nat, elapsed_seconds: nat) -> nat {
    (staked_amount * elapsed_seconds * POINTS_PER_SOL_PER_DAY as nat) / (LAMPORTS_PER_SOL as nat
        * SECONDS_PER_DAY as nat)
}

/// What computing the earned points yields in 64 bits: the points where
/// they fit, an overflow where they do not.
pub open spec fn earned(staked_amount: u64, elapsed_seconds: u64) -> Result<u64, StakeError> {
    let points = points_earned(staked_amount as nat, elapsed_seconds as nat);
    if points <= u64::MAX {
        Ok(points as u64)
    } else {
        Err(StakeError::Overflow)
    }
}

/// The seconds from `last` to `now`. There are none where `now` is
/// earlier than `last`, nor where the two lie further apart than a signed
/// 64-bit number can say.
pub open spec fn elapsed_between(last: i64, now: i64) -> Option<nat> {
    if last <= now && now - last <= i64::MAX {
        Some((now - last) as nat)
    } else {
        None
    }
}

/// The record after its points were brought up to `now`.
///
/// A `now` from which no `elapsed_between` the watermark and it exists is
/// an invalid timestamp. Otherwise the points earned since the watermark
/// join the total, the watermark moves to `now`, and nothing else changes;
/// a total beyond 64 bits is an overflow.
pub open spec fn rolled_forward(account: StakeAccount, now: i64) -> Result<
    StakeAccount,
    StakeError,
> {
    match elapsed_between(account.last_update_time, now) {
        None => Err(StakeError::InvalidTimestamp),
        Some(elapsed) => {
            let total = account.total_points + points_earned(account.staked_amount as nat, elapsed);
            if total <= u64::MAX {
                Ok(StakeAccount { total_points: total as u64, last_update_time: now, ..account })
            } else {
                Err(StakeError::Overflow)
            }
        },
    }
}

/// Nothing is earned on no stake or in no time.
pub proof fn lemma_points_earned_zero(staked_amount: nat, elapsed_seconds: nat)
    requires
        staked_amount == 0 || elapsed_seconds == 0,
    ensures
        points_earned(staked_amount, elapsed_seconds) == 0,
{
    assert(staked_amount * elapsed_seconds * 1_000_000 == 0) by (nonlinear_arith)
        requires
            staked_amount == 0 || elapsed_seconds == 0,
    ;
}

/// The points earned by `staked_amount` over `time_elapsed_seconds`,
/// computed in 128 bits: an overflow where the result does not fit 64 bits.
pub fn calculate_points_earned(staked_amount: u64, time_elapsed_seconds: u64) -> (result: Result<
    u64,
    StakeError,
>)
    ensures
        result == earned(staked_amount, time_elapsed_seconds),
{
    let stake: u128 = staked_amount as u128;
    let seconds: u128 = time_elapsed_seconds as u128;
    assert(stake * seconds <= 0xFFFF_FFFF_FFFF_FFFF * 0xFFFF_FFFF_FFFF_FFFF) by (nonlinear_arith)
        requires
            stake <= 0xFFFF_FFFF_FFFF_FFFF,
            seconds <= 0xFFFF_FFFF_FFFF_FFFF,
    ;
    let weighted: u128 = match stake.checked_mul(seconds) {
        Some(product) => product,
        None => {
            return Err(StakeError::Overflow);
        },
    };
    let scaled: u128 = match weighted.checked_mul(POINTS_PER_SOL_PER_DAY as u128) {
        Some(product) => product,
        None => {
            proof {
                lemma_div_is_ordered(
                    u128::MAX as int,
                    weighted * 1_000_000,
                    86_400_000_000_000,
                );
            }
            return Err(StakeError::Overflow);
        },
    };
    let per_unit: u128 = match scaled.checked_div(LAMPORTS_PER_SOL as u128) {
        Some(quotient) => quotient,
        None => {
            return Err(StakeError::Overflow);
        },
    };
    let points: u128 = match per_unit.checked_div(SECONDS_PER_DAY as u128) {
        Some(quotient) => quotient,
        None => {
            return Err(StakeError::Overflow);
        },
    };
    proof {
        lemma_div_denominator(scaled as int, 1_000_000_000, 86_400);
    }
    if points > u64::MAX as u128 {
        Err(StakeError::Overflow)
    } else {
        Ok(points as u64)
    }
}

/// Brings the record's points up to `current_time`.
///
/// On success the record is `rolled_forward`; on an error it is untouched.
pub fn update_points(pda_account: &mut StakeAccount, current_time: i64) -> (result: Result<
    (),
    StakeError,
>)
    ensures
        match rolled_forward(*old(pda_account), current_time) {
            Ok(next) => result == Ok::<(), StakeError>(()) && *final(pda_account) == next,
            Err(error) => result == Err::<(), StakeError>(error) && *final(pda_account) == *old(
                pda_account,
            ),
        },
{
    let time_elapsed: u64 = match current_time.checked_sub(pda_account.last_update_time) {
        Some(seconds) => {
            if seconds < 0 {
                return Err(StakeError::InvalidTimestamp);
            }
            seconds as u64
        },
        None => {
            return Err(StakeError::InvalidTimestamp);
        },
    };
    if time_elapsed > 0 && pda_account.staked_amount > 0 {
        let new_points: u64 = match calculate_points_earned(
            pda_account.staked_amount,
            time_elapsed,
        ) {
            Ok(points) => points,
            Err(error) => {
                return Err(error);
            },
        };
        let total: u64 = match pda_account.total_points.checked_add(new_points) {
            Some(sum) => sum,
            None => {
                return Err(StakeError::Overflow);
            },
        };
        pda_account.total_points = total;
    } else {
        proof {
            lemma_points_earned_zero(pda_account.staked_amount as nat, time_elapsed as nat);
        }
    }
    pda_account.last_update_time = current_time;
    Ok(())
}

} // verus!
