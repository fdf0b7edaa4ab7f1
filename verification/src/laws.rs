use vstd::prelude::*;
use crate::account::StakeAccount;
use crate::accrual::{
    earned,
    elapsed_between,
    lemma_points_earned_zero,
    points_earned,
    rolled_forward,
};
use crate::error::StakeError;
use crate::identity::Identity;
use crate::instructions::{
    claim_outcome,
    inspection,
    issue,
    stake_outcome,
    unstake_outcome,
    ClaimPoints,
    GetPoints,
    PointsReport,
    Stake,
    Staged,
    Unstake,
};
use crate::reward::RewardIssuance;

verus! {

/// One of the operations that change a record.
pub enum Operation {
    Stake { amount: u64 },
    Unstake { amount: u64 },
    ClaimPoints { reward: RewardIssuance },
}

/// The outcome of `operation` on `account` when `caller` asks for it at
/// `now`.
pub open spec fn applied(account: StakeAccount, caller: Identity, operation: Operation, now: i64)
    -> Result<Staged, StakeError> {
    match operation {
        Operation::Stake { amount } => stake_outcome(
            Stake { user: caller, pda_account: account },
            amount,
            now,
        ),
        Operation::Unstake { amount } => unstake_outcome(
            Unstake { user: caller, pda_account: account },
            amount,
            now,
        ),
        Operation::ClaimPoints { reward } => claim_outcome(
            ClaimPoints { user: caller, pda_account: account, reward },
            now,
        ),
    }
}

/// Why `operation` is turned away before any time is looked at, if it is.
pub open spec fn turned_away(account: StakeAccount, caller: Identity, operation: Operation)
    -> Option<StakeError> {
    if caller != account.owner {
        Some(StakeError::Unauthorized)
    } else {
        match operation {
            Operation::Stake { amount } => if amount == 0 {
                Some(StakeError::InvalidAmount)
            } else {
                None
            },
            Operation::Unstake { amount } => if amount == 0 {
                Some(StakeError::InvalidAmount)
            } else if account.staked_amount < amount {
                Some(StakeError::InsufficientStake)
            } else {
                None
            },
            Operation::ClaimPoints { reward } => reward.fault(caller),
        }
    }
}

/// The record that the host holds once an operation on `account` ended:
/// the settled record of an accepted operation, `account` itself after a
/// refusal.
pub open spec fn record_after(
    account: StakeAccount,
    outcome: Result<Staged, StakeError>,
    carried_out: bool,
) -> StakeAccount {
    match outcome {
        Ok(staged) => staged.settled(carried_out),
        Err(_) => account,
    }
}

/// The earned points are the rounded-down quotient of
/// `staked_amount * elapsed_seconds * 1_000_000` by
/// `1_000_000_000 * 86_400`, and computing them succeeds exactly when that
/// quotient fits 64 bits; no product on the way is cut short.
pub proof fn law_accrual_is_exact(staked_amount: u64, elapsed_seconds: u64)
    ensures
        points_earned(staked_amount as nat, elapsed_seconds as nat) == (staked_amount
            * elapsed_seconds * 1_000_000) / 86_400_000_000_000,
        points_earned(staked_amount as nat, elapsed_seconds as nat) <= u64::MAX ==> earned(
            staked_amount,
            elapsed_seconds,
        ) == Ok::<u64, StakeError>(
            points_earned(staked_amount as nat, elapsed_seconds as nat) as u64,
        ),
        points_earned(staked_amount as nat, elapsed_seconds as nat) > u64::MAX ==> earned(
            staked_amount,
            elapsed_seconds,
        ) == Err::<u64, StakeError>(StakeError::Overflow),
{
}

/// A roll-forward moves the watermark to `now` and never back, touches
/// nothing but the watermark and the point total, and refuses a `now`
/// before the watermark as an invalid timestamp.
pub proof fn law_roll_forward_watermark(account: StakeAccount, now: i64)
    ensures
        now < account.last_update_time ==> rolled_forward(account, now) == Err::<
            StakeAccount,
            StakeError,
        >(StakeError::InvalidTimestamp),
        rolled_forward(account, now) matches Ok(next) ==> {
            &&& next.last_update_time == now
            &&& account.last_update_time <= now
            &&& account.total_points <= next.total_points
            &&& next == StakeAccount {
                total_points: next.total_points,
                last_update_time: now,
                ..account
            }
        },
{
}

/// After every accepted operation the watermark is the `now` of that
/// operation, and it is not earlier than the watermark before, whether or
/// not the outside effect was carried out. An operation at a `now` before
/// the watermark is always refused.
pub proof fn law_watermark_monotonic(
    account: StakeAccount,
    caller: Identity,
    operation: Operation,
    now: i64,
    carried_out: bool,
)
    ensures
        applied(account, caller, operation, now) matches Ok(staged) ==> {
            &&& staged.after.last_update_time == now
            &&& account.last_update_time <= now
        },
        account.last_update_time <= record_after(
            account,
            applied(account, caller, operation, now),
            carried_out,
        ).last_update_time,
        now < account.last_update_time ==> applied(account, caller, operation, now) is Err,
{
}

/// An operation at a `now` before the watermark that is not turned away
/// for its caller, its amount or its reward holdings fails as an invalid
/// timestamp.
pub proof fn law_earlier_time_is_invalid(
    account: StakeAccount,
    caller: Identity,
    operation: Operation,
    now: i64,
)
    requires
        now < account.last_update_time,
        turned_away(account, caller, operation) is None,
    ensures
        applied(account, caller, operation, now) == Err::<Staged, StakeError>(
            StakeError::InvalidTimestamp,
        ),
{
}

/// An operation that is turned away fails with that very error, whatever
/// the time.
pub proof fn law_turned_away_first(
    account: StakeAccount,
    caller: Identity,
    operation: Operation,
    now: i64,
)
    ensures
        turned_away(account, caller, operation) matches Some(error) ==> applied(
            account,
            caller,
            operation,
            now,
        ) == Err::<Staged, StakeError>(error),
{
}

/// With nothing staked a roll-forward over any interval leaves the point
/// total alone and still moves the watermark to `now`.
pub proof fn law_no_accrual_on_zero_stake(account: StakeAccount, now: i64)
    requires
        account.staked_amount == 0,
        elapsed_between(account.last_update_time, now) is Some,
    ensures
        rolled_forward(account, now) == Ok::<StakeAccount, StakeError>(
            StakeAccount { last_update_time: now, ..account },
        ),
{
    lemma_points_earned_zero(0, elapsed_between(account.last_update_time, now).unwrap());
}

/// A roll-forward to the watermark itself changes nothing.
pub proof fn law_no_accrual_in_no_time(account: StakeAccount)
    ensures
        rolled_forward(account, account.last_update_time) == Ok::<StakeAccount, StakeError>(
            account,
        ),
{
    lemma_points_earned_zero(account.staked_amount as nat, 0);
}

/// A deposit or a withdrawal, as one step of a sequence.
pub enum Movement {
    Stake(u64),
    Unstake(u64),
}

/// What `movement` adds to the principal.
pub open spec fn signed_amount(movement: Movement) -> int {
    match movement {
        Movement::Stake(amount) => amount as int,
        Movement::Unstake(amount) => -(amount as int),
    }
}

/// The net of all amounts in `movements`.
pub open spec fn net(movements: Seq<Movement>) -> int
    decreases movements.len(),
{
    if movements.len() == 0 {
        0
    } else {
        signed_amount(movements[0]) + net(movements.skip(1))
    }
}

/// The record after the owner made `movements` one after the other, all at
/// `now`, each outside transfer carried out; the first refusal, if any.
pub open spec fn moved(account: StakeAccount, movements: Seq<Movement>, now: i64) -> Result<
    StakeAccount,
    StakeError,
>
    decreases movements.len(),
{
    if movements.len() == 0 {
        Ok(account)
    } else {
        let outcome = match movements[0] {
            Movement::Stake(amount) => stake_outcome(
                Stake { user: account.owner, pda_account: account },
                amount,
                now,
            ),
            Movement::Unstake(amount) => unstake_outcome(
                Unstake { user: account.owner, pda_account: account },
                amount,
                now,
            ),
        };
        match outcome {
            Ok(staged) => moved(staged.settled(true), movements.skip(1), now),
            Err(error) => Err(error),
        }
    }
}

/// Deposits and withdrawals without a gap in time conserve the principal:
/// after a sequence of them, all at the watermark and all accepted, the
/// principal is what it was plus the net of the amounts, and no point
/// accrued.
pub proof fn law_conservation(account: StakeAccount, movements: Seq<Movement>)
    ensures
        moved(account, movements, account.last_update_time) matches Ok(end) ==> {
            &&& end.staked_amount == account.staked_amount + net(movements)
            &&& end.total_points == account.total_points
            &&& end.last_update_time == account.last_update_time
            &&& end.owner == account.owner
            &&& end.bump == account.bump
        },
    decreases movements.len(),
{
    if movements.len() > 0 {
        let now = account.last_update_time;
        law_no_accrual_in_no_time(account);
        let outcome = match movements[0] {
            Movement::Stake(amount) => stake_outcome(
                Stake { user: account.owner, pda_account: account },
                amount,
                now,
            ),
            Movement::Unstake(amount) => unstake_outcome(
                Unstake { user: account.owner, pda_account: account },
                amount,
                now,
            ),
        };
        if let Ok(staged) = outcome {
            law_conservation(staged.settled(true), movements.skip(1));
        }
    }
}

/// An inspection at the watermark reports the stored total and principal,
/// and an inspection at any time reports the total that a roll-forward to
/// that time would store.
pub proof fn law_inspection_projects(ctx: GetPoints, now: i64)
    requires
        ctx.user == ctx.pda_account.owner,
    ensures
        inspection(ctx, ctx.pda_account.last_update_time) == Ok::<PointsReport, StakeError>(
            PointsReport {
                current_total_points: ctx.pda_account.total_points,
                staked_amount: ctx.pda_account.staked_amount,
            },
        ),
        match rolled_forward(ctx.pda_account, now) {
            Ok(rolled) => inspection(ctx, now) == Ok::<PointsReport, StakeError>(
                PointsReport {
                    current_total_points: rolled.total_points,
                    staked_amount: ctx.pda_account.staked_amount,
                },
            ),
            Err(error) => inspection(ctx, now) == Err::<PointsReport, StakeError>(error),
        },
{
    law_no_accrual_in_no_time(ctx.pda_account);
}

/// Two inspections of the same record by the same caller at the same time
/// report the same.
pub proof fn law_inspection_repeats(first: GetPoints, second: GetPoints, now: i64)
    requires
        first.user == second.user,
        first.pda_account == second.pda_account,
    ensures
        inspection(first, now) == inspection(second, now),
{
}

/// A claim issues the whole points of the rolled-forward total and resets
/// the total to zero, so the fraction below one whole point is given up.
pub proof fn law_claim_resets(ctx: ClaimPoints, now: i64)
    ensures
        claim_outcome(ctx, now) matches Ok(staged) ==> {
            &&& staged.after.total_points == 0
            &&& staged.after.staked_amount == ctx.pda_account.staked_amount
            &&& staged.before == ctx.pda_account
            &&& rolled_forward(ctx.pda_account, now) matches Ok(rolled) && staged.action
                == issue(ctx.reward, rolled.total_points / 1_000_000)
        },
{
}

/// A deposit that would take the principal beyond 64 bits is refused, and
/// the record stays as it was; where nothing else is wrong with the
/// deposit, the refusal is an overflow.
pub proof fn law_overflow_guard(ctx: Stake, amount: u64, now: i64, carried_out: bool)
    requires
        ctx.pda_account.staked_amount + amount > u64::MAX,
    ensures
        stake_outcome(ctx, amount, now) is Err,
        record_after(ctx.pda_account, stake_outcome(ctx, amount, now), carried_out)
            == ctx.pda_account,
        ctx.user == ctx.pda_account.owner && rolled_forward(ctx.pda_account, now) is Ok
            ==> stake_outcome(ctx, amount, now) == Err::<Staged, StakeError>(
            StakeError::Overflow,
        ),
{
}

/// Whoever is not the owner is refused as unauthorized, by every
/// operation and by the inspection, and the record stays as it was.
pub proof fn law_authorization_guard(
    account: StakeAccount,
    caller: Identity,
    operation: Operation,
    now: i64,
    carried_out: bool,
)
    requires
        caller != account.owner,
    ensures
        applied(account, caller, operation, now) == Err::<Staged, StakeError>(
            StakeError::Unauthorized,
        ),
        record_after(account, applied(account, caller, operation, now), carried_out) == account,
        inspection(GetPoints { user: caller, pda_account: account }, now) == Err::<
            PointsReport,
            StakeError,
        >(StakeError::Unauthorized),
{
}

/// No operation changes the owner or the nonce of a record, and where the
/// outside effect of an accepted operation fails, the record is kept field
/// for field.
pub proof fn law_owner_is_fixed(
    account: StakeAccount,
    caller: Identity,
    operation: Operation,
    now: i64,
    carried_out: bool,
)
    ensures
        record_after(account, applied(account, caller, operation, now), carried_out).owner
            == account.owner,
        record_after(account, applied(account, caller, operation, now), carried_out).bump
            == account.bump,
        record_after(account, applied(account, caller, operation, now), false) == account,
{
}

/// Nothing ever fails as an underflow: a withdrawal is held against the
/// principal before anything is subtracted.
pub proof fn law_underflow_unreachable(
    account: StakeAccount,
    caller: Identity,
    operation: Operation,
    now: i64,
)
    ensures
        rolled_forward(account, now) != Err::<StakeAccount, StakeError>(StakeError::Underflow),
        applied(account, caller, operation, now) != Err::<Staged, StakeError>(
            StakeError::Underflow,
        ),
        inspection(GetPoints { user: caller, pda_account: account }, now) != Err::<
            PointsReport,
            StakeError,
        >(StakeError::Underflow),
{
}

} // verus!
