use vstd::prelude::*;
use crate::identity::Identity;

verus! {

/// The label under which a record's address derives from its owner: the
/// bytes of `client1`.
pub const ACCOUNT_SEED: [u8; 7] = [99, 108, 105, 101, 110, 116, 49];

/// The label under which the address of the program-level minting
/// authority derives: the bytes of `mint_authority`.
pub const MINT_AUTHORITY_SEED: [u8; 14] = [
    109,
    105,
    110,
    116,
    95,
    97,
    117,
    116,
    104,
    111,
    114,
    105,
    116,
    121,
];

/// The seeds by which the record of `owner` signs for its own holding:
/// the label, the owner's bytes, and the nonce.
pub open spec fn account_seeds(owner: Identity, bump: u8) -> Seq<Seq<u8>> {
    seq![ACCOUNT_SEED@, owner@, seq![bump]]
}

/// The seeds by which the minting authority signs: the label and the
/// nonce.
pub open spec fn mint_authority_seeds(bump: u8) -> Seq<Seq<u8>> {
    seq![MINT_AUTHORITY_SEED@, seq![bump]]
}

/// The bytes of an array, in a vector.
fn bytes_of<const N: usize>(bytes: &[u8; N]) -> (copy: Vec<u8>)
    ensures
        copy@ == bytes@,
{
    let mut copy: Vec<u8> = Vec::new();
    let mut i: usize = 0;
    while i < N
        invariant
            i <= N,
            copy@.len() == i,
            forall|j: int| 0 <= j < i ==> copy@[j] == bytes@[j],
        decreases N - i,
    {
        copy.push(bytes[i]);
        i += 1;
    }
    assert(copy@ =~= bytes@);
    copy
}

/// Builds the seeds with which the record of `owner` authorizes a
/// transfer out of its own holding.
pub fn account_signer_seeds(owner: &Identity, bump: u8) -> (seeds: Vec<Vec<u8>>)
    ensures
        seeds.deep_view() == account_seeds(*owner, bump),
{
    let mut nonce: Vec<u8> = Vec::new();
    nonce.push(bump);
    let mut seeds: Vec<Vec<u8>> = Vec::new();
    seeds.push(bytes_of(&ACCOUNT_SEED));
    seeds.push(bytes_of(&owner.bytes));
    seeds.push(nonce);
    assert(seeds.deep_view() =~~= account_seeds(*owner, bump));
    seeds
}

/// Builds the seeds with which the minting authority signs for the reward
/// mint.
pub fn mint_authority_signer_seeds(bump: u8) -> (seeds: Vec<Vec<u8>>)
    ensures
        seeds.deep_view() == mint_authority_seeds(bump),
{
    let mut nonce: Vec<u8> = Vec::new();
    nonce.push(bump);
    let mut seeds: Vec<Vec<u8>> = Vec::new();
    seeds.push(bytes_of(&MINT_AUTHORITY_SEED));
    seeds.push(nonce);
    assert(seeds.deep_view() =~~= mint_authority_seeds(bump));
    seeds
}

} // verus!
