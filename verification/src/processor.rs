//! The dispatcher: it decodes a command and hands it to its operation.

use crate::address::{derived, nonce_in, Address};
use crate::deposit::DepositSchedule;
use crate::error::SpotSurfError;
use crate::host::{HostCall, HostCallView};
use crate::instruction::{instruction_of, InstructionSpotSurf, InstructionView};
use crate::instructions::add_comment::{
    add_comment, add_comment_refusal, comment_requests, expected_comment, with_comment,
    CommentAccounts,
};
use crate::instructions::add_spot_surf::{
    add_spot_surf, add_spot_surf_refusal, expected_profile, profile_requests, with_profile,
    ProfileAccounts,
};
use crate::instructions::initialize_token_mint::{
    initialize_refusal, initialize_token_mint, setup_request, MintAccounts,
};
use crate::instructions::update_spot_surf::{
    update_refusal, update_student_intro, with_revision, UpdateAccounts,
};
use crate::reward::reward_asset_seeds;
use crate::store::{SlotStore, SlotView};
use vstd::prelude::*;

verus! {

/// The calls of a list as mathematical values.
pub open spec fn calls_of(calls: Seq<HostCall>) -> Seq<HostCallView> {
    Seq::new(calls.len(), |i: int| calls[i]@)
}

/// Why a command is refused, if it is: its bytes spell no operation, or the
/// operation they spell is refused.
pub open spec fn process_refusal(
    store: Map<Address, SlotView>,
    program_id: Address,
    schedule: DepositSchedule,
    accounts: Seq<Address>,
    data: Seq<u8>,
) -> Option<SpotSurfError> {
    match instruction_of(data) {
        None => Some(SpotSurfError::InvalidInstructionData),
        Some(InstructionView::InitSpotSurfInfo { name, rate, review }) => add_spot_surf_refusal(
            store,
            program_id,
            schedule,
            accounts,
            name,
            review,
            rate,
        ),
        Some(InstructionView::UpdateSpotSurfInfo { name, rate, review }) => update_refusal(
            store,
            program_id,
            accounts,
            review,
            rate,
        ),
        Some(InstructionView::AddComment { comment }) => add_comment_refusal(
            store,
            program_id,
            schedule,
            accounts,
            comment,
        ),
        Some(InstructionView::InitMint) => initialize_refusal(program_id, schedule, accounts),
    }
}

/// The store after an accepted command.
pub open spec fn process_store(
    store: Map<Address, SlotView>,
    program_id: Address,
    accounts: Seq<Address>,
    data: Seq<u8>,
) -> Map<Address, SlotView> {
    match instruction_of(data) {
        Some(InstructionView::InitSpotSurfInfo { name, rate, review }) => with_profile(
            store,
            program_id,
            ProfileAccounts::of(accounts),
            name,
            review,
            rate,
        ),
        Some(InstructionView::UpdateSpotSurfInfo { name, rate, review }) => with_revision(
            store,
            UpdateAccounts::of(accounts),
            review,
            rate,
        ),
        Some(InstructionView::AddComment { comment }) => with_comment(
            store,
            program_id,
            CommentAccounts::of(accounts),
            comment,
        ),
        _ => store,
    }
}

/// What an accepted command asks of the host, in the order in which the host
/// is to do it.
pub open spec fn process_calls(
    store: Map<Address, SlotView>,
    program_id: Address,
    schedule: DepositSchedule,
    accounts: Seq<Address>,
    data: Seq<u8>,
) -> Seq<HostCallView> {
    match instruction_of(data) {
        Some(InstructionView::InitSpotSurfInfo { name, rate, review }) => {
            let roles = ProfileAccounts::of(accounts);
            let requests = profile_requests(
                program_id,
                schedule,
                roles,
                expected_profile(program_id, roles),
            );
            seq![
                HostCallView::CreateSlot(requests.profile),
                HostCallView::CreateSlot(requests.counter),
                HostCallView::IssueReward(requests.reward),
            ]
        },
        Some(InstructionView::AddComment { comment }) => {
            let roles = CommentAccounts::of(accounts);
            let requests = comment_requests(
                store,
                program_id,
                schedule,
                roles,
                expected_comment(store, program_id, roles),
                comment,
            );
            seq![
                HostCallView::CreateSlot(requests.comment),
                HostCallView::IssueReward(requests.reward),
            ]
        },
        Some(InstructionView::InitMint) => seq![
            HostCallView::InitMint(
                setup_request(
                    schedule,
                    MintAccounts::of(accounts),
                    nonce_in(derived(reward_asset_seeds(), program_id@)),
                ),
            ),
        ],
        _ => Seq::empty(),
    }
}

/// Decodes a command and carries out the operation it spells.
///
/// An accepted command changes the store and returns what the host is to do
/// for it: the slots to allocate, the reward to issue, the asset to set up. A
/// refused command leaves the store as it was.
pub fn process_instruction(
    program_id: &Address,
    store: &mut SlotStore,
    schedule: &DepositSchedule,
    accounts: &Vec<Address>,
    instruction_data: &[u8],
) -> (done: Result<Vec<HostCall>, SpotSurfError>)
    ensures
        match done {
            Ok(calls) => {
                &&& process_refusal(
                    old(store)@,
                    *program_id,
                    *schedule,
                    accounts@,
                    instruction_data@,
                ) is None
                &&& calls_of(calls@) == process_calls(
                    old(store)@,
                    *program_id,
                    *schedule,
                    accounts@,
                    instruction_data@,
                )
                &&& final(store)@ == process_store(
                    old(store)@,
                    *program_id,
                    accounts@,
                    instruction_data@,
                )
            },
            Err(e) => {
                &&& process_refusal(
                    old(store)@,
                    *program_id,
                    *schedule,
                    accounts@,
                    instruction_data@,
                ) == Some(e)
                &&& final(store)@ == old(store)@
            },
        },
{
    let instruction = match InstructionSpotSurf::unpack(instruction_data) {
        Ok(instruction) => instruction,
        Err(e) => {
            return Err(e);
        },
    };
    let mut calls: Vec<HostCall> = Vec::new();
    match instruction {
        InstructionSpotSurf::InitSpotSurfInfo { name, rate, review } => {
            match add_spot_surf(program_id, store, schedule, accounts, name, review, rate) {
                Ok(requests) => {
                    calls.push(HostCall::CreateSlot(requests.profile));
                    calls.push(HostCall::CreateSlot(requests.counter));
                    calls.push(HostCall::IssueReward(requests.reward));
                },
                Err(e) => {
                    return Err(e);
                },
            }
        },
        InstructionSpotSurf::UpdateSpotSurfInfo { name, rate, review } => {
            match update_student_intro(program_id, store, accounts, name, review, rate) {
                Ok(_) => {},
                Err(e) => {
                    return Err(e);
                },
            }
        },
        InstructionSpotSurf::InitMint => {
            match initialize_token_mint(program_id, schedule, accounts) {
                Ok(setup) => {
                    calls.push(HostCall::InitMint(setup));
                },
                Err(e) => {
                    return Err(e);
                },
            }
        },
        InstructionSpotSurf::AddComment { comment } => {
            match add_comment(program_id, store, schedule, accounts, comment) {
                Ok(requests) => {
                    calls.push(HostCall::CreateSlot(requests.comment));
                    calls.push(HostCall::IssueReward(requests.reward));
                },
                Err(e) => {
                    return Err(e);
                },
            }
        },
    }
    assert(calls_of(calls@) =~= process_calls(
        old(store)@,
        *program_id,
        *schedule,
        accounts@,
        instruction_data@,
    ));
    Ok(calls)
}

} // verus!
