//! What an accepted operation asks of the host: slots to allocate and calls
//! into the reward sub-ledger, each with the seeds that sign for it.

use crate::address::{address_of, address_of_view, seeds_of, Address};
use crate::codec::u64_bytes;
use solana_program::instruction::AccountMeta;
use solana_program::program_pack::Pack;
use solana_program::pubkey::Pubkey;
use solana_system_interface::instruction as system;
use vstd::prelude::*;

verus! {

/// A request to the host to allocate a slot of `byte_length` bytes at
/// `target` for `owner`, with `deposit` paid by `payer`, and signed for
/// `target` with `seeds`.
#[derive(Clone, Debug, PartialEq, Eq)]
pub struct SlotRequest {
    pub payer: Address,
    pub target: Address,
    pub owner: Address,
    pub deposit: u64,
    pub byte_length: usize,
    pub seeds: Vec<Vec<u8>>,
}

/// A slot request as a mathematical value.
pub struct SlotRequestView {
    pub payer: Address,
    pub target: Address,
    pub owner: Address,
    pub deposit: u64,
    pub byte_length: usize,
    pub seeds: Seq<Seq<u8>>,
}

impl View for SlotRequest {
    type V = SlotRequestView;

    open spec fn view(&self) -> SlotRequestView {
        SlotRequestView {
            payer: self.payer,
            target: self.target,
            owner: self.owner,
            deposit: self.deposit,
            byte_length: self.byte_length,
            seeds: seeds_of(self.seeds@),
        }
    }
}

/// The authority to have the reward sub-ledger credit `amount` of the asset
/// `reward_module` to `destination`, signed for `authority` with
/// `authority_seeds`.
#[derive(Clone, Debug, PartialEq, Eq)]
pub struct RewardGrant {
    pub ledger_module: Address,
    pub reward_module: Address,
    pub destination: Address,
    pub authority: Address,
    pub amount: u64,
    pub authority_seeds: Vec<Vec<u8>>,
}

/// A reward grant as a mathematical value.
pub struct RewardGrantView {
    pub ledger_module: Address,
    pub reward_module: Address,
    pub destination: Address,
    pub authority: Address,
    pub amount: u64,
    pub authority_seeds: Seq<Seq<u8>>,
}

impl View for RewardGrant {
    type V = RewardGrantView;

    open spec fn view(&self) -> RewardGrantView {
        RewardGrantView {
            ledger_module: self.ledger_module,
            reward_module: self.reward_module,
            destination: self.destination,
            authority: self.authority,
            amount: self.amount,
            authority_seeds: seeds_of(self.authority_seeds@),
        }
    }
}

/// A request to set up the reward asset: the slot to allocate for it, which
/// the reward sub-ledger owns, the authority that may issue it, and the
/// number of its decimal places.
#[derive(Clone, Debug, PartialEq, Eq)]
pub struct MintSetup {
    pub slot: SlotRequest,
    pub authority: Address,
    pub decimals: u8,
}

/// The set-up of the reward asset as a mathematical value.
pub struct MintSetupView {
    pub slot: SlotRequestView,
    pub authority: Address,
    pub decimals: u8,
}

impl View for MintSetup {
    type V = MintSetupView;

    open spec fn view(&self) -> MintSetupView {
        MintSetupView { slot: self.slot@, authority: self.authority, decimals: self.decimals }
    }
}

/// One thing that an accepted operation asks of the host.
#[derive(Clone, Debug, PartialEq, Eq)]
pub enum HostCall {
    /// Allocate a slot.
    CreateSlot(SlotRequest),
    /// Have the reward sub-ledger credit a reward.
    IssueReward(RewardGrant),
    /// Have the reward sub-ledger set up the reward asset.
    InitMint(MintSetup),
}

/// A host call as a mathematical value.
pub enum HostCallView {
    CreateSlot(SlotRequestView),
    IssueReward(RewardGrantView),
    InitMint(MintSetupView),
}

impl View for HostCall {
    type V = HostCallView;

    open spec fn view(&self) -> HostCallView {
        match self {
            HostCall::CreateSlot(request) => HostCallView::CreateSlot(request@),
            HostCall::IssueReward(grant) => HostCallView::IssueReward(grant@),
            HostCall::InitMint(setup) => HostCallView::InitMint(setup@),
        }
    }
}

/// The seeds that sign for a derived address: the seeds it was derived from,
/// then the nonce.
pub open spec fn signer_seeds(seeds: Seq<Seq<u8>>, nonce: u8) -> Seq<Seq<u8>> {
    seeds.push(seq![nonce])
}

/// Appends the nonce to the seeds an address was derived from.
pub fn with_nonce(seeds: Vec<Vec<u8>>, nonce: u8) -> (signing: Vec<Vec<u8>>)
    ensures
        seeds_of(signing@) == signer_seeds(seeds_of(seeds@), nonce),
{
    let mut signing = seeds;
    let mut last: Vec<u8> = Vec::new();
    last.push(nonce);
    assert(last@ =~= seq![nonce]);
    signing.push(last);
    assert(seeds_of(signing@) =~= signer_seeds(seeds_of(seeds@), nonce));
    signing
}

// ---------------------------------------------------------------------------
// The calls, as the host takes them
// ---------------------------------------------------------------------------
/// The part that a slot takes in a call: whether it signs, and whether the
/// call may change it.
#[derive(Clone, Copy, Debug, PartialEq, Eq)]
pub struct AccountRole {
    pub address: Address,
    pub is_signer: bool,
    pub is_writable: bool,
}

/// A call into another module: the module, the slots it is handed and the
/// bytes of the command.
#[derive(Clone, Debug, PartialEq, Eq)]
pub struct SubCall {
    pub program: Address,
    pub accounts: Vec<AccountRole>,
    pub data: Vec<u8>,
}

/// A call as a mathematical value.
pub struct SubCallView {
    pub program: Address,
    pub accounts: Seq<AccountRole>,
    pub data: Seq<u8>,
}

impl View for SubCall {
    type V = SubCallView;

    open spec fn view(&self) -> SubCallView {
        SubCallView { program: self.program, accounts: self.accounts@, data: self.data@ }
    }
}

/// The identity of the host module that allocates slots: thirty-two zero
/// bytes.
pub open spec fn system_program() -> Seq<u8> {
    Seq::new(32, |i: int| 0u8)
}

/// The identity of the reward sub-ledger,
/// `TokenkegQfeZyiNwAJbNbGKPFXCWuBvf9Ss623VQ5DA`.
pub open spec fn token_program() -> Seq<u8> {
    seq![
        6u8, 221, 246, 225, 215, 101, 161, 147, 217, 203, 225, 70, 206, 235, 121, 172, 28, 180, 133,
        237, 95, 91, 55, 145, 58, 140, 245, 133, 126, 255, 0, 169,
    ]
}

/// The room that the reward sub-ledger needs for an asset.
pub const MINT_LEN: usize = 82;

/// The bytes of the command that asks the host to allocate a slot of `space`
/// bytes for `owner` with a deposit of `lamports`.
pub uninterp spec fn create_account_data(lamports: u64, space: u64, owner: Seq<u8>) -> Seq<u8>;

/// The call that asks the host for the slot of `request`: to the host's
/// allocator, with the payer and the target as signers that may change.
pub open spec fn allocation_call(request: SlotRequestView) -> SubCallView {
    SubCallView {
        program: address_of(system_program()),
        accounts: seq![
            AccountRole { address: request.payer, is_signer: true, is_writable: true },
            AccountRole { address: request.target, is_signer: true, is_writable: true },
        ],
        data: create_account_data(
            request.deposit,
            request.byte_length as u64,
            request.owner@,
        ),
    }
}

/// The call that asks the sub-ledger to credit the reward of `grant`: the
/// asset and the destination may change, the authority signs, and the
/// command is the byte 7 and the amount in eight bytes.
pub open spec fn credit_call(grant: RewardGrantView) -> SubCallView {
    SubCallView {
        program: grant.ledger_module,
        accounts: seq![
            AccountRole { address: grant.reward_module, is_signer: false, is_writable: true },
            AccountRole { address: grant.destination, is_signer: false, is_writable: true },
            AccountRole { address: grant.authority, is_signer: true, is_writable: false },
        ],
        data: seq![7u8] + u64_bytes(grant.amount),
    }
}

/// The call that asks the sub-ledger to make the slot of `setup` the reward
/// asset: the asset may change, and the command is the byte 20, the decimal
/// places, the authority, and a zero byte for the absent freeze authority.
pub open spec fn initialization_call(setup: MintSetupView) -> SubCallView {
    SubCallView {
        program: setup.slot.owner,
        accounts: seq![
            AccountRole { address: setup.slot.target, is_signer: false, is_writable: true },
        ],
        data: seq![20u8, setup.decimals] + setup.authority@ + seq![0u8],
    }
}

/// Calls `spl_token::id`, which returns the constant that the crate declares
/// as its program id. The contract claims that its bytes are those of
/// [`token_program`].
#[verifier::external_body]
pub(crate) fn token_program_id() -> (id: Address)
    ensures
        id@ == token_program(),
{
    Address { bytes: spl_token::id().to_bytes() }
}

/// Reads `Mint::LEN` of `spl_token`, the length that the crate declares for
/// the packed form of an asset. The contract claims that it is [`MINT_LEN`].
#[verifier::external_body]
fn mint_len() -> (len: usize)
    ensures
        len == MINT_LEN,
{
    spl_token::state::Mint::LEN
}

/// Calls `create_account` of `solana_system_interface`.
///
/// That function builds the instruction for the system program, whose id is
/// thirty-two zero bytes, with the payer and the new account as writable
/// signers, and serializes the deposit, the space and the owner as its data.
/// The contract states the program and the accounts, and names the data.
#[verifier::external_body]
fn create_account(request: &SlotRequest) -> (call: SubCall)
    ensures
        call.program@ == system_program(),
        call.accounts@ == seq![
            AccountRole { address: request.payer, is_signer: true, is_writable: true },
            AccountRole { address: request.target, is_signer: true, is_writable: true },
        ],
        call.data@ == create_account_data(
            request.deposit,
            request.byte_length as u64,
            request.owner@,
        ),
{
    let k = |a: &Address| Pubkey::new_from_array(a.bytes);
    let r = request;
    let space = r.byte_length as u64;
    let i = system::create_account(&k(&r.payer), &k(&r.target), r.deposit, space, &k(&r.owner));
    let role = |m: &AccountMeta| {
        let address = Address { bytes: m.pubkey.to_bytes() };
        AccountRole { address, is_signer: m.is_signer, is_writable: m.is_writable }
    };
    let program = Address { bytes: i.program_id.to_bytes() };
    SubCall { program, accounts: i.accounts.iter().map(role).collect(), data: i.data }
}

/// Calls `spl_token::instruction::mint_to`, with no further signers.
///
/// That function fails unless the program is the token program; else it
/// builds the instruction for it with the mint and the destination as
/// writable accounts and the authority as a signer, and the byte 7 and the
/// amount, least significant byte first, as data.
#[verifier::external_body]
fn mint_to(grant: &RewardGrant) -> (call: Option<SubCall>)
    ensures
        call is Some <==> grant.ledger_module@ == token_program(),
        call matches Some(made) ==> made@ == credit_call(grant@),
{
    let k = |a: &Address| Pubkey::new_from_array(a.bytes);
    let g = grant;
    let (ledger, mint, to, by) = (&g.ledger_module, &g.reward_module, &g.destination, &g.authority);
    let i = spl_token::instruction::mint_to(&k(ledger), &k(mint), &k(to), &k(by), &[], g.amount);
    let i = i.ok()?;
    let role = |m: &AccountMeta| {
        let address = Address { bytes: m.pubkey.to_bytes() };
        AccountRole { address, is_signer: m.is_signer, is_writable: m.is_writable }
    };
    let program = Address { bytes: i.program_id.to_bytes() };
    Some(SubCall { program, accounts: i.accounts.iter().map(role).collect(), data: i.data })
}

/// Calls `spl_token::instruction::initialize_mint2`, with no freeze
/// authority.
///
/// That function fails unless the program is the token program; else it
/// builds the instruction for it with the mint as a writable account, and
/// the byte 20, the decimals, the mint authority and a zero byte as data.
#[verifier::external_body]
fn initialize_mint2(setup: &MintSetup) -> (call: Option<SubCall>)
    ensures
        call is Some <==> setup.slot.owner@ == token_program(),
        call matches Some(made) ==> made@ == initialization_call(setup@),
{
    let k = |a: &Address| Pubkey::new_from_array(a.bytes);
    let (ledger, mint, by) = (&setup.slot.owner, &setup.slot.target, &setup.authority);
    let places = setup.decimals;
    let i = spl_token::instruction::initialize_mint2(&k(ledger), &k(mint), &k(by), None, places);
    let i = i.ok()?;
    let role = |m: &AccountMeta| {
        let address = Address { bytes: m.pubkey.to_bytes() };
        AccountRole { address, is_signer: m.is_signer, is_writable: m.is_writable }
    };
    let program = Address { bytes: i.program_id.to_bytes() };
    Some(SubCall { program, accounts: i.accounts.iter().map(role).collect(), data: i.data })
}

/// The length of the slot that the reward sub-ledger needs for an asset.
pub fn asset_slot_len() -> (len: usize)
    ensures
        len == MINT_LEN,
{
    mint_len()
}

/// The call that asks the host to allocate the slot of `request`.
pub fn allocation(request: &SlotRequest) -> (call: SubCall)
    ensures
        call@ == allocation_call(request@),
{
    let call = create_account(request);
    proof {
        address_of_view(call.program);
    }
    call
}

/// The call that asks the sub-ledger to credit the reward of `grant`; there
/// is none where the grant names another sub-ledger.
pub fn credit(grant: &RewardGrant) -> (call: Option<SubCall>)
    ensures
        call is Some <==> grant.ledger_module@ == token_program(),
        call matches Some(made) ==> made@ == credit_call(grant@),
{
    mint_to(grant)
}

/// The call that asks the sub-ledger to make the slot of `setup` the reward
/// asset; there is none where the slot is owned by another sub-ledger.
pub fn initialization(setup: &MintSetup) -> (call: Option<SubCall>)
    ensures
        call is Some <==> setup.slot.owner@ == token_program(),
        call matches Some(made) ==> made@ == initialization_call(setup@),
{
    initialize_mint2(setup)
}

} // verus!
