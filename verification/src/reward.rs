//! The reward: the checks on the asset, its authority, the contributor's
//! balance and the sub-ledger, and the grant that passes them.

use crate::address::{
    address_of, address_of_view, derive_address, derived, nonce_in, same_as_derived, seeds_of,
    spec_same_as_derived, Address,
};
use crate::codec::put_bytes;
use crate::error::SpotSurfError;
use crate::host::{
    signer_seeds, token_program, token_program_id, with_nonce, RewardGrant, RewardGrantView,
};
use vstd::prelude::*;
use vstd::utf8::encode_utf8;

verus! {

/// What a contributor receives for a new profile, in the smallest unit of the
/// reward asset.
pub const PROFILE_REWARD: u64 = 10_000_000_000;

/// What a contributor receives for a comment, in the smallest unit of the
/// reward asset.
pub const COMMENT_REWARD: u64 = 5_000_000_000;

/// The seeds from which the address of the reward asset is derived.
pub open spec fn reward_asset_seeds() -> Seq<Seq<u8>> {
    seq![encode_utf8("reward-asset"@)]
}

/// The seeds from which the address of the reward authority is derived.
pub open spec fn reward_authority_seeds() -> Seq<Seq<u8>> {
    seq![encode_utf8("reward-authority"@)]
}

/// The identity of the module under which the sub-ledger derives the
/// addresses of balances, `ATokenGPvbdGVxr1b2hvZbsiqW5xWH25efTNsLJA8knL`.
pub open spec fn associated_token_program() -> Seq<u8> {
    seq![
        140u8, 151, 37, 143, 78, 36, 137, 241, 187, 61, 16, 41, 20, 142, 13, 131, 11, 90, 19, 153,
        218, 255, 16, 132, 4, 142, 123, 216, 219, 233, 248, 89,
    ]
}

/// The seeds from which the sub-ledger derives the address of the balance
/// that `wallet` holds of the asset `mint`.
pub open spec fn associated_seeds(wallet: Address, mint: Address) -> Seq<Seq<u8>> {
    seq![wallet@, token_program(), mint@]
}

/// Calls `spl_associated_token_account::id`, which returns the constant that
/// the crate declares as its program id. The contract claims that its bytes
/// are those of [`associated_token_program`].
#[verifier::external_body]
fn associated_token_program_id() -> (id: Address)
    ensures
        id@ == associated_token_program(),
{
    Address { bytes: spl_associated_token_account::id().to_bytes() }
}

/// The UTF-8 bytes of `text`, as a seed.
pub fn text_seed(text: &str) -> (seed: Vec<u8>)
    ensures
        seed@ == encode_utf8(text@),
{
    let mut seed: Vec<u8> = Vec::new();
    put_bytes(&mut seed, text.as_bytes());
    assert(seed@ =~= encode_utf8(text@));
    seed
}

/// The seeds of the reward asset.
pub fn asset_seeds() -> (seeds: Vec<Vec<u8>>)
    ensures
        seeds_of(seeds@) == reward_asset_seeds(),
{
    let mut seeds: Vec<Vec<u8>> = Vec::new();
    seeds.push(text_seed("reward-asset"));
    assert(seeds_of(seeds@) =~= reward_asset_seeds());
    seeds
}

/// The seeds of the reward authority.
pub fn authority_seeds() -> (seeds: Vec<Vec<u8>>)
    ensures
        seeds_of(seeds@) == reward_authority_seeds(),
{
    let mut seeds: Vec<Vec<u8>> = Vec::new();
    seeds.push(text_seed("reward-authority"));
    assert(seeds_of(seeds@) =~= reward_authority_seeds());
    seeds
}

/// Derives the address of the balance that `wallet` holds of the asset
/// `mint`, by the sub-ledger's own rule: from the wallet, the sub-ledger's
/// identity and the asset, under the module for associated balances.
pub fn get_associated_token_address(wallet: &Address, mint: &Address) -> (found: Option<
    (Address, u8),
>)
    ensures
        found == derived(associated_seeds(*wallet, *mint), associated_token_program()),
{
    let mut seeds: Vec<Vec<u8>> = Vec::new();
    seeds.push(wallet.to_vec());
    seeds.push(token_program_id().to_vec());
    seeds.push(mint.to_vec());
    assert(seeds_of(seeds@) =~= associated_seeds(*wallet, *mint));
    derive_address(&seeds, &associated_token_program_id())
}

/// The slots that take part in a reward, by role.
#[derive(Clone, Copy, Debug, PartialEq, Eq)]
pub struct RewardAccounts {
    /// Who earned the reward.
    pub contributor: Address,
    /// The reward asset.
    pub reward_module: Address,
    /// The authority that may issue the asset.
    pub authority: Address,
    /// The balance of the contributor in the asset.
    pub balance: Address,
    /// The reward sub-ledger.
    pub ledger_module: Address,
}

/// What the host derives for the roles of a reward.
#[derive(Clone, Copy, Debug, PartialEq, Eq)]
pub struct RewardDerivation {
    /// The address of the reward asset.
    pub asset: Option<(Address, u8)>,
    /// The address of the reward authority.
    pub authority: Option<(Address, u8)>,
    /// The address of the contributor's balance.
    pub balance: Option<(Address, u8)>,
    /// The identity of the reward sub-ledger.
    pub ledger_module: Address,
}

/// Why a reward is refused, if it is, given what the host derived: the first
/// of the four checks that fails.
pub open spec fn reward_refusal(accounts: RewardAccounts, found: RewardDerivation) -> Option<
    SpotSurfError,
> {
    if !spec_same_as_derived(&accounts.reward_module, &found.asset) {
        Some(SpotSurfError::IncorrectAccountError)
    } else if !spec_same_as_derived(&accounts.authority, &found.authority) {
        Some(SpotSurfError::InvalidPDA)
    } else if !spec_same_as_derived(&accounts.balance, &found.balance) {
        Some(SpotSurfError::IncorrectAccountError)
    } else if accounts.ledger_module != found.ledger_module {
        Some(SpotSurfError::IncorrectAccountError)
    } else {
        None
    }
}

/// The grant for a reward of `amount` that passed the checks, signed with the
/// nonce of the authority.
pub open spec fn reward_grant(accounts: RewardAccounts, nonce: u8, amount: u64) -> RewardGrantView {
    RewardGrantView {
        ledger_module: accounts.ledger_module,
        reward_module: accounts.reward_module,
        destination: accounts.balance,
        authority: accounts.authority,
        amount,
        authority_seeds: signer_seeds(reward_authority_seeds(), nonce),
    }
}

/// Checks the roles of a reward against what the host derived for them and
/// grants the reward where all four agree.
///
/// The asset is checked first, then the authority, the balance and the
/// sub-ledger.
pub fn check_reward(accounts: &RewardAccounts, found: &RewardDerivation, amount: u64) -> (granted:
    Result<RewardGrant, SpotSurfError>)
    ensures
        match granted {
            Ok(grant) => reward_refusal(*accounts, *found) is None && grant@ == reward_grant(
                *accounts,
                nonce_in(found.authority),
                amount,
            ),
            Err(e) => reward_refusal(*accounts, *found) == Some(e),
        },
{
    if !same_as_derived(&accounts.reward_module, &found.asset) {
        return Err(SpotSurfError::IncorrectAccountError);
    }
    let nonce = match found.authority {
        Some((address, nonce)) => {
            if !address.same(&accounts.authority) {
                return Err(SpotSurfError::InvalidPDA);
            }
            nonce
        },
        None => {
            return Err(SpotSurfError::InvalidPDA);
        },
    };
    if !same_as_derived(&accounts.balance, &found.balance) {
        return Err(SpotSurfError::IncorrectAccountError);
    }
    if !accounts.ledger_module.same(&found.ledger_module) {
        return Err(SpotSurfError::IncorrectAccountError);
    }
    Ok(
        RewardGrant {
            ledger_module: accounts.ledger_module,
            reward_module: accounts.reward_module,
            destination: accounts.balance,
            authority: accounts.authority,
            amount,
            authority_seeds: with_nonce(authority_seeds(), nonce),
        },
    )
}

/// What the host derives for a reward to `contributor` in the asset
/// `reward_module`, under the module `program_id`.
pub open spec fn expected_reward(
    program_id: Address,
    contributor: Address,
    reward_module: Address,
) -> RewardDerivation {
    RewardDerivation {
        asset: derived(reward_asset_seeds(), program_id@),
        authority: derived(reward_authority_seeds(), program_id@),
        balance: derived(associated_seeds(contributor, reward_module), associated_token_program()),
        ledger_module: address_of(token_program()),
    }
}

/// Derives the addresses that the roles of a reward must have.
pub fn derive_reward(
    program_id: &Address,
    contributor: &Address,
    reward_module: &Address,
) -> (found: RewardDerivation)
    ensures
        found == expected_reward(*program_id, *contributor, *reward_module),
{
    let ledger_module = token_program_id();
    proof {
        address_of_view(ledger_module);
    }
    RewardDerivation {
        asset: derive_address(&asset_seeds(), program_id),
        authority: derive_address(&authority_seeds(), program_id),
        balance: get_associated_token_address(contributor, reward_module),
        ledger_module,
    }
}

/// Why a reward is refused, if it is: the first of the four checks that
/// fails.
///
/// The asset must stand at the address derived for it, else the accounts are
/// incorrect; the authority at the address derived for it, else the derived
/// address is invalid; the balance must be the contributor's balance in the
/// asset and the sub-ledger the expected one, else the accounts are
/// incorrect.
pub open spec fn reward_error(program_id: Address, accounts: RewardAccounts) -> Option<
    SpotSurfError,
> {
    reward_refusal(
        accounts,
        expected_reward(program_id, accounts.contributor, accounts.reward_module),
    )
}

/// Validates the roles of a reward and grants `amount` to the contributor.
///
/// Nothing is granted unless the asset, the authority, the balance and the
/// sub-ledger are the ones that the module `program_id` expects. The grant
/// names the balance as destination and carries the seeds that sign for the
/// authority.
pub fn issue_reward(program_id: &Address, accounts: &RewardAccounts, amount: u64) -> (granted:
    Result<RewardGrant, SpotSurfError>)
    ensures
        match granted {
            Ok(grant) => reward_error(*program_id, *accounts) is None && grant@ == reward_grant(
                *accounts,
                nonce_in(derived(reward_authority_seeds(), program_id@)),
                amount,
            ),
            Err(e) => reward_error(*program_id, *accounts) == Some(e),
        },
{
    let found = derive_reward(program_id, &accounts.contributor, &accounts.reward_module);
    check_reward(accounts, &found, amount)
}

/// A reward whose asset does not stand at the address derived for it is
/// refused as incorrect, whatever the other roles hold.
pub proof fn spoofed_asset_is_refused(program_id: Address, accounts: RewardAccounts)
    requires
        !crate::address::is_derived(accounts.reward_module, reward_asset_seeds(), program_id@),
    ensures
        reward_error(program_id, accounts) == Some(SpotSurfError::IncorrectAccountError),
{
}

/// A reward that passed the checks is credited by the expected sub-ledger:
/// its grant names that sub-ledger, so there is a call that credits it.
pub proof fn granted_reward_names_the_ledger(program_id: Address, accounts: RewardAccounts)
    requires
        reward_error(program_id, accounts) is None,
    ensures
        accounts.ledger_module@ == token_program(),
        crate::address::is_derived(accounts.reward_module, reward_asset_seeds(), program_id@),
        crate::address::is_derived(accounts.authority, reward_authority_seeds(), program_id@),
        crate::address::is_derived(
            accounts.balance,
            associated_seeds(accounts.contributor, accounts.reward_module),
            associated_token_program(),
        ),
{
    crate::address::address_of_bytes(token_program());
}

} // verus!
