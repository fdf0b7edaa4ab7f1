use vstd::prelude::*;
use crate::identity::Identity;

verus! {

/// The ledger record of one owner.
///
/// `total_points` is a fixed-point number with six decimal places: one
/// whole point is `POINTS_PER_SOL_PER_DAY` of it. Everything that accrued
/// before `last_update_time` is already folded into `total_points`.
#[derive(Clone, Copy, Debug, PartialEq, Eq)]
pub struct StakeAccount {
    /// The only identity that may operate on the record.
    pub owner: Identity,
    /// Principal held for the owner, in the smallest currency unit.
    pub staked_amount: u64,
    /// Accrued points that were not claimed yet.
    pub total_points: u64,
    /// The watermark, in Unix seconds.
    pub last_update_time: i64,
    /// The nonce under which the record's address derives from `owner`.
    pub bump: u8,
}

impl StakeAccount {
    /// The record as creation leaves it: nothing staked, nothing accrued,
    /// the watermark at `now`.
    pub open spec fn opened(owner: Identity, bump: u8, now: i64) -> StakeAccount {
        StakeAccount { owner, staked_amount: 0, total_points: 0, last_update_time: now, bump }
    }

    /// This record with another principal.
    pub open spec fn with_stake(self, staked_amount: u64) -> StakeAccount {
        StakeAccount { staked_amount, ..self }
    }

    /// This record with another point total.
    pub open spec fn with_points(self, total_points: u64) -> StakeAccount {
        StakeAccount { total_points, ..self }
    }
}

} // verus!
