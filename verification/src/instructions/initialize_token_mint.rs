//! The operation that sets up the reward asset.

use crate::address::{
    address_of, address_of_view, derive_address, derived, nonce_in, same_as_derived,
    spec_same_as_derived, Address,
};
use crate::deposit::{deposit_for, deposit_or_zero, minimum_deposit, DepositSchedule};
use crate::error::SpotSurfError;
use crate::host::{
    asset_slot_len, signer_seeds, token_program, token_program_id, with_nonce, MintSetup,
    MintSetupView, SlotRequest, SlotRequestView, MINT_LEN,
};
use crate::reward::{asset_seeds, authority_seeds, reward_asset_seeds, reward_authority_seeds};
use vstd::prelude::*;

verus! {

/// The number of slot handles that the set-up of the reward asset takes.
pub const MINT_ROLES: usize = 5;

/// The number of decimal places of the reward asset.
pub const REWARD_DECIMALS: u8 = 9;

/// The slots that take part in the set-up of the reward asset, by role. They
/// are passed in this order.
#[derive(Clone, Copy, Debug, PartialEq, Eq)]
pub struct MintAccounts {
    /// Who pays for the asset.
    pub payer: Address,
    /// The reward asset.
    pub reward_module: Address,
    /// The authority that may issue the asset.
    pub authority: Address,
    /// The host module that allocates slots.
    pub system_module: Address,
    /// The reward sub-ledger.
    pub ledger_module: Address,
}

impl MintAccounts {
    /// The roles that the first five handles of `list` fill.
    pub open spec fn of(list: Seq<Address>) -> MintAccounts {
        MintAccounts {
            payer: list[0],
            reward_module: list[1],
            authority: list[2],
            system_module: list[3],
            ledger_module: list[4],
        }
    }

    /// Gives each of the first five handles of `list` its role; fails where
    /// there are fewer.
    pub fn from_list(list: &Vec<Address>) -> (accounts: Result<MintAccounts, SpotSurfError>)
        ensures
            accounts == if list@.len() < MINT_ROLES {
                Err::<MintAccounts, SpotSurfError>(SpotSurfError::NotEnoughAccountKeys)
            } else {
                Ok(MintAccounts::of(list@))
            },
    {
        if list.len() < MINT_ROLES {
            return Err(SpotSurfError::NotEnoughAccountKeys);
        }
        Ok(
            MintAccounts {
                payer: list[0],
                reward_module: list[1],
                authority: list[2],
                system_module: list[3],
                ledger_module: list[4],
            },
        )
    }
}

/// Why the set-up of the reward asset is refused, if it is, given what the
/// host derived: the asset, the authority or the sub-ledger is not the one
/// expected, or the host's schedule has no deposit for the asset.
pub open spec fn setup_refusal(
    schedule: DepositSchedule,
    accounts: MintAccounts,
    asset: Option<(Address, u8)>,
    authority: Option<(Address, u8)>,
    ledger_module: Address,
) -> Option<SpotSurfError> {
    if !spec_same_as_derived(&accounts.reward_module, &asset) {
        Some(SpotSurfError::IncorrectAccountError)
    } else if !spec_same_as_derived(&accounts.authority, &authority) {
        Some(SpotSurfError::InvalidPDA)
    } else if accounts.ledger_module != ledger_module {
        Some(SpotSurfError::IncorrectAccountError)
    } else if deposit_for(schedule, MINT_LEN) is None {
        Some(SpotSurfError::SlotCreationFailed)
    } else {
        None
    }
}

/// What an accepted set-up asks for: a slot for the asset, owned by the
/// sub-ledger and signed for with the seeds of the asset, and the asset in
/// it, with nine decimal places, under the authority.
pub open spec fn setup_request(
    schedule: DepositSchedule,
    accounts: MintAccounts,
    nonce: u8,
) -> MintSetupView {
    MintSetupView {
        slot: SlotRequestView {
            payer: accounts.payer,
            target: accounts.reward_module,
            owner: accounts.ledger_module,
            deposit: deposit_or_zero(schedule, MINT_LEN),
            byte_length: MINT_LEN,
            seeds: signer_seeds(reward_asset_seeds(), nonce),
        },
        authority: accounts.authority,
        decimals: REWARD_DECIMALS,
    }
}

/// Checks the roles of the set-up against what the host derived for them.
pub fn check_setup(
    schedule: &DepositSchedule,
    accounts: &MintAccounts,
    asset: &Option<(Address, u8)>,
    authority: &Option<(Address, u8)>,
    ledger_module: &Address,
) -> (checked: Result<MintSetup, SpotSurfError>)
    ensures
        match checked {
            Ok(setup) => setup_refusal(*schedule, *accounts, *asset, *authority, *ledger_module)
                is None && setup@ == setup_request(*schedule, *accounts, nonce_in(*asset)),
            Err(e) => setup_refusal(*schedule, *accounts, *asset, *authority, *ledger_module)
                == Some(e),
        },
{
    let nonce = match asset {
        Some((address, nonce)) => {
            if !address.same(&accounts.reward_module) {
                return Err(SpotSurfError::IncorrectAccountError);
            }
            *nonce
        },
        None => {
            return Err(SpotSurfError::IncorrectAccountError);
        },
    };
    if !same_as_derived(&accounts.authority, authority) {
        return Err(SpotSurfError::InvalidPDA);
    }
    if !accounts.ledger_module.same(ledger_module) {
        return Err(SpotSurfError::IncorrectAccountError);
    }
    let byte_length = asset_slot_len();
    let deposit = match minimum_deposit(schedule, byte_length) {
        Some(deposit) => deposit,
        None => {
            return Err(SpotSurfError::SlotCreationFailed);
        },
    };
    Ok(
        MintSetup {
            slot: SlotRequest {
                payer: accounts.payer,
                target: accounts.reward_module,
                owner: accounts.ledger_module,
                deposit,
                byte_length,
                seeds: with_nonce(asset_seeds(), nonce),
            },
            authority: accounts.authority,
            decimals: REWARD_DECIMALS,
        },
    )
}

/// Why the set-up of the reward asset is refused, if it is: too few slot
/// handles, or the first check that fails against what the host derives.
pub open spec fn initialize_refusal(
    program_id: Address,
    schedule: DepositSchedule,
    accounts: Seq<Address>,
) -> Option<SpotSurfError> {
    if accounts.len() < MINT_ROLES {
        Some(SpotSurfError::NotEnoughAccountKeys)
    } else {
        setup_refusal(
            schedule,
            MintAccounts::of(accounts),
            derived(reward_asset_seeds(), program_id@),
            derived(reward_authority_seeds(), program_id@),
            address_of(token_program()),
        )
    }
}

/// Validates the roles of the set-up of the reward asset and asks for it.
///
/// The slots are passed by role: payer, reward asset, reward authority, the
/// host's allocator and the reward sub-ledger. The asset and the authority
/// must stand at the addresses derived for them, and the sub-ledger must be
/// the expected one. The store is not touched: the asset lives in the
/// sub-ledger.
pub fn initialize_token_mint(
    program_id: &Address,
    schedule: &DepositSchedule,
    accounts: &Vec<Address>,
) -> (done: Result<MintSetup, SpotSurfError>)
    ensures
        match done {
            Ok(setup) => initialize_refusal(*program_id, *schedule, accounts@) is None && setup@
                == setup_request(
                *schedule,
                MintAccounts::of(accounts@),
                nonce_in(derived(reward_asset_seeds(), program_id@)),
            ),
            Err(e) => initialize_refusal(*program_id, *schedule, accounts@) == Some(e),
        },
{
    let roles = match MintAccounts::from_list(accounts) {
        Ok(roles) => roles,
        Err(e) => {
            return Err(e);
        },
    };
    let asset = derive_address(&asset_seeds(), program_id);
    let authority = derive_address(&authority_seeds(), program_id);
    let ledger_module = token_program_id();
    proof {
        address_of_view(ledger_module);
    }
    check_setup(schedule, &roles, &asset, &authority, &ledger_module)
}

/// An accepted set-up asks for a slot that the expected sub-ledger owns, so
/// there is a call that makes the slot the reward asset.
pub proof fn accepted_setup_names_the_ledger(
    program_id: Address,
    schedule: DepositSchedule,
    accounts: Seq<Address>,
)
    requires
        initialize_refusal(program_id, schedule, accounts) is None,
    ensures
        MintAccounts::of(accounts).ledger_module@ == token_program(),
        deposit_for(schedule, MINT_LEN) is Some,
{
    crate::address::address_of_bytes(token_program());
}

} // verus!
