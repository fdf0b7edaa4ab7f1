use vstd::prelude::*;
use crate::account::StakeAccount;
use crate::accrual::{rolled_forward, update_points, LAMPORTS_PER_SOL, POINTS_PER_SOL_PER_DAY};
use crate::error::StakeError;
use crate::identity::Identity;
use crate::reward::RewardIssuance;

verus! {

/// What creation works on: the proven caller, who becomes the owner, and
/// the nonce under which the new record's address derives from the caller.
#[derive(Clone, Copy, Debug, PartialEq, Eq)]
pub struct CreatePdaAccount {
    pub payer: Identity,
    pub bump: u8,
}

/// What a deposit works on: the proven caller and the record.
#[derive(Clone, Copy, Debug, PartialEq, Eq)]
pub struct Stake {
    pub user: Identity,
    pub pda_account: StakeAccount,
}

/// What a withdrawal works on: the proven caller and the record.
#[derive(Clone, Copy, Debug, PartialEq, Eq)]
pub struct Unstake {
    pub user: Identity,
    pub pda_account: StakeAccount,
}

/// What a claim works on: the proven caller, the record, and the way the
/// reward is issued.
#[derive(Clone, Copy, Debug, PartialEq, Eq)]
pub struct ClaimPoints {
    pub user: Identity,
    pub pda_account: StakeAccount,
    pub reward: RewardIssuance,
}

/// What an inspection works on: the proven caller and the record.
#[derive(Clone, Copy, Debug, PartialEq, Eq)]
pub struct GetPoints {
    pub user: Identity,
    pub pda_account: StakeAccount,
}

/// The outside effect that belongs to an accepted operation. The host
/// carries it out; the ledger only says what it is.
#[derive(Clone, Copy, Debug, PartialEq, Eq)]
pub enum Action {
    /// Move `amount` from the caller into the record's holding, on the
    /// caller's own authority.
    Deposit { from: Identity, amount: u64 },
    /// Move `amount` out of the record's holding to the caller. The record
    /// authorizes this itself, by its owner and `bump`.
    Withdraw { to: Identity, amount: u64, bump: u8 },
    /// Report `units` whole points as claimed.
    Record { units: u64 },
    /// Mint `units` of the reward token to the caller's holding, signed by
    /// the program-level authority that derives under `authority_bump`.
    Mint { units: u64, authority_bump: u8 },
}

/// An accepted operation that has not taken effect yet: the record as it
/// was, the record as it will be, and the outside effect that decides
/// between the two.
#[derive(Clone, Copy, Debug, PartialEq, Eq)]
pub struct Staged {
    pub before: StakeAccount,
    pub after: StakeAccount,
    pub action: Action,
}

impl Staged {
    /// The record to keep once the outside effect was attempted: the new
    /// one if it was carried out, the old one, field for field, if it
    /// failed.
    pub open spec fn settled(self, carried_out: bool) -> StakeAccount {
        if carried_out {
            self.after
        } else {
            self.before
        }
    }

    /// The record to keep once the outside effect was attempted.
    pub fn settle(&self, carried_out: bool) -> (account: StakeAccount)
        ensures
            account == self.settled(carried_out),
    {
        if carried_out {
            self.after
        } else {
            self.before
        }
    }
}

/// What an inspection reports: the point total as it would stand now, in
/// fixed point, and the principal.
#[derive(Clone, Copy, Debug, PartialEq, Eq, Structural)]
pub struct PointsReport {
    pub current_total_points: u64,
    pub staked_amount: u64,
}

impl PointsReport {
    /// The whole points in the reported total.
    pub fn whole_points(&self) -> (points: u64)
        ensures
            points == self.current_total_points / POINTS_PER_SOL_PER_DAY,
    {
        self.current_total_points / POINTS_PER_SOL_PER_DAY
    }

    /// The whole units of the asset in the reported principal.
    pub fn whole_stake(&self) -> (units: u64)
        ensures
            units == self.staked_amount / LAMPORTS_PER_SOL,
    {
        self.staked_amount / LAMPORTS_PER_SOL
    }
}

/// The outcome of a deposit of `amount` at `now`.
///
/// Refused, in this order: a caller who is not the owner; a zero amount;
/// a failed roll-forward; a principal beyond 64 bits. Otherwise the record
/// is rolled forward, its principal grows by `amount`, and the caller owes
/// the deposit.
pub open spec fn stake_outcome(ctx: Stake, amount: u64, now: i64) -> Result<Staged, StakeError> {
    if ctx.user != ctx.pda_account.owner {
        Err(StakeError::Unauthorized)
    } else if amount == 0 {
        Err(StakeError::InvalidAmount)
    } else {
        match rolled_forward(ctx.pda_account, now) {
            Err(error) => Err(error),
            Ok(rolled) => {
                if rolled.staked_amount + amount > u64::MAX {
                    Err(StakeError::Overflow)
                } else {
                    Ok(
                        Staged {
                            before: ctx.pda_account,
                            after: rolled.with_stake((rolled.staked_amount + amount) as u64),
                            action: Action::Deposit { from: ctx.user, amount },
                        },
                    )
                }
            },
        }
    }
}

/// The outcome of a withdrawal of `amount` at `now`.
///
/// Refused, in this order: a caller who is not the owner; a zero amount;
/// an amount above the principal; a failed roll-forward. Otherwise the
/// record is rolled forward, its principal shrinks by `amount`, and the
/// record owes the caller the withdrawal.
pub open spec fn unstake_outcome(ctx: Unstake, amount: u64, now: i64) -> Result<
    Staged,
    StakeError,
> {
    if ctx.user != ctx.pda_account.owner {
        Err(StakeError::Unauthorized)
    } else if amount == 0 {
        Err(StakeError::InvalidAmount)
    } else if ctx.pda_account.staked_amount < amount {
        Err(StakeError::InsufficientStake)
    } else {
        match rolled_forward(ctx.pda_account, now) {
            Err(error) => Err(error),
            Ok(rolled) => Ok(
                Staged {
                    before: ctx.pda_account,
                    after: rolled.with_stake((rolled.staked_amount - amount) as u64),
                    action: Action::Withdraw {
                        to: ctx.user,
                        amount,
                        bump: ctx.pda_account.bump,
                    },
                },
            ),
        }
    }
}

/// The reward that a claim of `units` whole points asks for.
pub open spec fn issue(reward: RewardIssuance, units: u64) -> Action {
    match reward {
        RewardIssuance::Recorded => Action::Record { units },
        RewardIssuance::Minted(route) => Action::Mint {
            units,
            authority_bump: route.mint_authority_bump,
        },
    }
}

/// The outcome of a claim at `now`.
///
/// Refused, in this order: a caller who is not the owner; faulty reward
/// holdings; a failed roll-forward. Otherwise the record is rolled
/// forward, the whole points of its total are issued as the reward, and
/// the total, fraction included, is reset to zero.
pub open spec fn claim_outcome(ctx: ClaimPoints, now: i64) -> Result<Staged, StakeError> {
    if ctx.user != ctx.pda_account.owner {
        Err(StakeError::Unauthorized)
    } else {
        match ctx.reward.fault(ctx.user) {
            Some(error) => Err(error),
            None => match rolled_forward(ctx.pda_account, now) {
                Err(error) => Err(error),
                Ok(rolled) => Ok(
                    Staged {
                        before: ctx.pda_account,
                        after: rolled.with_points(0),
                        action: issue(
                            ctx.reward,
                            rolled.total_points / POINTS_PER_SOL_PER_DAY,
                        ),
                    },
                ),
            },
        }
    }
}

/// What an inspection at `now` reports.
///
/// Refused where the caller is not the owner or the roll-forward would
/// fail. Otherwise the report holds the total that a roll-forward to
/// `now` would reach, and the principal.
pub open spec fn inspection(ctx: GetPoints, now: i64) -> Result<PointsReport, StakeError> {
    if ctx.user != ctx.pda_account.owner {
        Err(StakeError::Unauthorized)
    } else {
        match rolled_forward(ctx.pda_account, now) {
            Err(error) => Err(error),
            Ok(rolled) => Ok(
                PointsReport {
                    current_total_points: rolled.total_points,
                    staked_amount: rolled.staked_amount,
                },
            ),
        }
    }
}

/// Opens the record of `ctx.payer` at `now`: nothing staked, nothing
/// accrued.
pub fn create_pda_account(ctx: &CreatePdaAccount, now: i64) -> (account: StakeAccount)
    ensures
        account == StakeAccount::opened(ctx.payer, ctx.bump, now),
{
    StakeAccount {
        owner: ctx.payer,
        staked_amount: 0,
        total_points: 0,
        last_update_time: now,
        bump: ctx.bump,
    }
}

/// Stages a deposit of `amount` at `now`.
pub fn stake(ctx: &Stake, amount: u64, now: i64) -> (result: Result<Staged, StakeError>)
    ensures
        result == stake_outcome(*ctx, amount, now),
{
    if !ctx.user.same_as(&ctx.pda_account.owner) {
        return Err(StakeError::Unauthorized);
    }
    if amount == 0 {
        return Err(StakeError::InvalidAmount);
    }
    let mut pda_account = ctx.pda_account;
    match update_points(&mut pda_account, now) {
        Ok(()) => {},
        Err(error) => {
            return Err(error);
        },
    }
    match pda_account.staked_amount.checked_add(amount) {
        Some(sum) => {
            pda_account.staked_amount = sum;
        },
        None => {
            return Err(StakeError::Overflow);
        },
    }
    Ok(
        Staged {
            before: ctx.pda_account,
            after: pda_account,
            action: Action::Deposit { from: ctx.user, amount },
        },
    )
}

/// Stages a withdrawal of `amount` at `now`.
pub fn unstake(ctx: &Unstake, amount: u64, now: i64) -> (result: Result<Staged, StakeError>)
    ensures
        result == unstake_outcome(*ctx, amount, now),
{
    if !ctx.user.same_as(&ctx.pda_account.owner) {
        return Err(StakeError::Unauthorized);
    }
    if amount == 0 {
        return Err(StakeError::InvalidAmount);
    }
    if ctx.pda_account.staked_amount < amount {
        return Err(StakeError::InsufficientStake);
    }
    let mut pda_account = ctx.pda_account;
    match update_points(&mut pda_account, now) {
        Ok(()) => {},
        Err(error) => {
            return Err(error);
        },
    }
    match pda_account.staked_amount.checked_sub(amount) {
        Some(rest) => {
            pda_account.staked_amount = rest;
        },
        None => {
            return Err(StakeError::Underflow);
        },
    }
    Ok(
        Staged {
            before: ctx.pda_account,
            after: pda_account,
            action: Action::Withdraw { to: ctx.user, amount, bump: ctx.pda_account.bump },
        },
    )
}

/// Stages a claim of the accrued points at `now`.
pub fn claim_points(ctx: &ClaimPoints, now: i64) -> (result: Result<Staged, StakeError>)
    ensures
        result == claim_outcome(*ctx, now),
{
    if !ctx.user.same_as(&ctx.pda_account.owner) {
        return Err(StakeError::Unauthorized);
    }
    match ctx.reward.check(&ctx.user) {
        Ok(()) => {},
        Err(error) => {
            return Err(error);
        },
    }
    let mut pda_account = ctx.pda_account;
    match update_points(&mut pda_account, now) {
        Ok(()) => {},
        Err(error) => {
            return Err(error);
        },
    }
    let claimable_points: u64 = pda_account.total_points / POINTS_PER_SOL_PER_DAY;
    let action = match ctx.reward {
        RewardIssuance::Recorded => Action::Record { units: claimable_points },
        RewardIssuance::Minted(route) => Action::Mint {
            units: claimable_points,
            authority_bump: route.mint_authority_bump,
        },
    };
    pda_account.total_points = 0;
    Ok(Staged { before: ctx.pda_account, after: pda_account, action })
}

/// Reports the points as they would stand at `now`. The record is only
/// read.
pub fn get_points(ctx: &GetPoints, now: i64) -> (result: Result<PointsReport, StakeError>)
    ensures
        result == inspection(*ctx, now),
{
    if !ctx.user.same_as(&ctx.pda_account.owner) {
        return Err(StakeError::Unauthorized);
    }
    let mut projected = ctx.pda_account;
    match update_points(&mut projected, now) {
        Ok(()) => {},
        Err(error) => {
            return Err(error);
        },
    }
    Ok(
        PointsReport {
            current_total_points: projected.total_points,
            staked_amount: projected.staked_amount,
        },
    )
}

} // verus!
