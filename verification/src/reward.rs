use vstd::prelude::*;
use crate::error::StakeError;
use crate::identity::Identity;

verus! {

/// The name under which the reward token is registered.
pub const NAME: &'static str = "Reward Token";

/// The symbol under which the reward token is registered.
pub const SYMBOL: &'static str = "REWARD";

/// Where the reward token's descriptive document is found.
pub const URI: &'static str =
    "https://raw.githubusercontent.com/NeelContractor/Solana-Bootcamp-Projects/refs/heads/main/token-lottery/anchor/metadata.json";

/// The decimal places of the reward token.
pub const REWARD_DECIMALS: u8 = 2;

/// The mint of the reward token, as far as a claim looks at it.
#[derive(Clone, Copy, Debug, PartialEq, Eq)]
pub struct RewardMint {
    /// Where the mint lives.
    pub key: Identity,
    /// Who may mint from it, if anyone.
    pub mint_authority: Option<Identity>,
}

/// A holding of some token, as far as a claim looks at it.
#[derive(Clone, Copy, Debug, PartialEq, Eq)]
pub struct RewardTokenAccount {
    /// Who controls the holding.
    pub owner: Identity,
    /// The mint whose token it holds.
    pub mint: Identity,
}

/// The holdings that a minted reward passes through.
#[derive(Clone, Copy, Debug, PartialEq, Eq)]
pub struct MintRoute {
    /// The mint that issues the reward.
    pub reward_mint: RewardMint,
    /// The program-level authority that signs for the mint.
    pub mint_authority: Identity,
    /// The nonce under which that authority's address derives.
    pub mint_authority_bump: u8,
    /// The claimant's holding that receives the reward.
    pub user_token_account: RewardTokenAccount,
}

/// How a claim turns points into a reward.
#[derive(Clone, Copy, Debug, PartialEq, Eq)]
pub enum RewardIssuance {
    /// The claimed amount is only reported.
    Recorded,
    /// The claimed amount is minted as a token.
    Minted(MintRoute),
}

impl RewardIssuance {
    /// What is wrong with the holdings of this issuance for a claim by
    /// `user`, if anything: the mint must be governed by the route's
    /// authority, and the destination must belong to `user` and hold the
    /// mint's token. A recorded reward has nothing to get wrong.
    pub open spec fn fault(self, user: Identity) -> Option<StakeError> {
        match self {
            RewardIssuance::Recorded => None,
            RewardIssuance::Minted(route) => {
                if route.reward_mint.mint_authority != Some(route.mint_authority) {
                    Some(StakeError::InvalidMintAuthority)
                } else if route.user_token_account.owner != user {
                    Some(StakeError::Unauthorized)
                } else if route.user_token_account.mint != route.reward_mint.key {
                    Some(StakeError::InvalidTokenAccount)
                } else {
                    None
                }
            },
        }
    }

    /// Checks the holdings of this issuance for a claim by `user`.
    pub fn check(&self, user: &Identity) -> (result: Result<(), StakeError>)
        ensures
            match self.fault(*user) {
                None => result == Ok::<(), StakeError>(()),
                Some(error) => result == Err::<(), StakeError>(error),
            },
    {
        match self {
            RewardIssuance::Recorded => Ok(()),
            RewardIssuance::Minted(route) => {
                let governed = match &route.reward_mint.mint_authority {
                    Some(authority) => authority.same_as(&route.mint_authority),
                    None => false,
                };
                if !governed {
                    Err(StakeError::InvalidMintAuthority)
                } else if !route.user_token_account.owner.same_as(user) {
                    Err(StakeError::Unauthorized)
                } else if !route.user_token_account.mint.same_as(&route.reward_mint.key) {
                    Err(StakeError::InvalidTokenAccount)
                } else {
                    Ok(())
                }
            },
        }
    }
}

/// Someone named as a creator of the reward token.
#[derive(Clone, Copy, Debug, PartialEq, Eq)]
pub struct Creator {
    pub address: Identity,
    /// Whether the creator has signed for being named.
    pub verified: bool,
    /// The creator's share, in percent.
    pub share: u8,
}

/// The descriptive record of the reward token. It names no collection and
/// sets no limit on uses.
#[derive(Clone, Debug, PartialEq, Eq)]
pub struct RewardMetadata {
    pub name: String,
    pub symbol: String,
    pub uri: String,
    pub seller_fee_basis_points: u16,
    pub creators: Option<Vec<Creator>>,
}

/// A request to register the reward token's descriptive record, signed by
/// the minting authority, which also becomes the update authority.
#[derive(Clone, Debug, PartialEq, Eq)]
pub struct MetadataRegistration {
    pub data: RewardMetadata,
    /// Whether the record may be changed later.
    pub is_mutable: bool,
    /// Whether the update authority signs the registration.
    pub update_authority_is_signer: bool,
    /// The nonce under which the minting authority's address derives.
    pub mint_authority_bump: u8,
}

/// What the one-time setup of the reward token works on: who pays for it,
/// and the nonce of the minting authority.
#[derive(Clone, Copy, Debug, PartialEq, Eq)]
pub struct InitializeRewardMint {
    pub payer: Identity,
    pub mint_authority_bump: u8,
}

impl MetadataRegistration {
    /// Whether this is the registration that the setup paid by `payer`
    /// asks for: the fixed name, symbol and document, no seller fee, the
    /// payer as the only creator, unverified and with the full share, and
    /// a record that stays changeable under the signing authority.
    pub open spec fn is_for(self, payer: Identity, mint_authority_bump: u8) -> bool {
        &&& self.data.name@ == NAME@
        &&& self.data.symbol@ == SYMBOL@
        &&& self.data.uri@ == URI@
        &&& self.data.seller_fee_basis_points == 0
        &&& self.data.creators matches Some(creators) && creators@ == seq![
            Creator { address: payer, verified: false, share: 100 },
        ]
        &&& self.is_mutable
        &&& self.update_authority_is_signer
        &&& self.mint_authority_bump == mint_authority_bump
    }
}

/// Describes the one-time registration of the reward token.
pub fn initialize_reward_mint(ctx: &InitializeRewardMint) -> (registration: MetadataRegistration)
    ensures
        registration.is_for(ctx.payer, ctx.mint_authority_bump),
{
    let mut creators: Vec<Creator> = Vec::new();
    creators.push(Creator { address: ctx.payer, verified: false, share: 100 });
    let data = RewardMetadata {
        name: NAME.to_owned(),
        symbol: SYMBOL.to_owned(),
        uri: URI.to_owned(),
        seller_fee_basis_points: 0,
        creators: Some(creators),
    };
    MetadataRegistration {
        data,
        is_mutable: true,
        update_authority_is_signer: true,
        mint_authority_bump: ctx.mint_authority_bump,
    }
}

} // verus!
