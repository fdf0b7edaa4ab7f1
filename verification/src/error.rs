use vstd::prelude::*;

verus! {

/// Why an operation on the ledger was refused. Every refusal leaves the
/// ledger record as it was.
#[derive(Clone, Copy, Debug, PartialEq, Eq, Structural)]
pub enum StakeError {
    /// The proven caller is not the owner of the record.
    Unauthorized,
    /// The observed time lies before the record's watermark.
    InvalidTimestamp,
    /// A sum or product leaves the range of its type.
    Overflow,
    /// A difference would be negative.
    Underflow,
    /// The amount is zero.
    InvalidAmount,
    /// More was asked back than is staked.
    InsufficientStake,
    /// The reward mint is not governed by the expected authority.
    InvalidMintAuthority,
    /// The reward destination does not hold the reward mint's token.
    InvalidTokenAccount,
}

} // verus!
