use solana_program::program_pack::Pack;
use solana_program::pubkey::Pubkey;
use spot_surf::address::Address;
use spot_surf::host::{
    allocation, asset_slot_len, credit, initialization, with_nonce, AccountRole, MintSetup,
    RewardGrant, SlotRequest, SubCall, MINT_LEN,
};

fn host_key(address: &Address) -> Pubkey {
    Pubkey::new_from_array(address.bytes)
}

fn as_call(instruction: solana_program::instruction::Instruction) -> SubCall {
    SubCall {
        program: Address::new(instruction.program_id.to_bytes()),
        accounts: instruction
            .accounts
            .iter()
            .map(|meta| AccountRole {
                address: Address::new(meta.pubkey.to_bytes()),
                is_signer: meta.is_signer,
                is_writable: meta.is_writable,
            })
            .collect(),
        data: instruction.data,
    }
}

fn sample_request() -> SlotRequest {
    SlotRequest {
        payer: Address::new([1u8; 32]),
        target: Address::new([2u8; 32]),
        owner: Address::new([3u8; 32]),
        deposit: 7_850_880,
        byte_length: 1000,
        seeds: vec![vec![1u8; 32], vec![254]],
    }
}

fn sample_grant() -> RewardGrant {
    RewardGrant {
        ledger_module: Address::new(spl_token::id().to_bytes()),
        reward_module: Address::new([4u8; 32]),
        destination: Address::new([5u8; 32]),
        authority: Address::new([6u8; 32]),
        amount: 10_000_000_000,
        authority_seeds: vec![b"reward-authority".to_vec(), vec![253]],
    }
}

#[test]
fn the_nonce_is_the_last_seed() {
    assert_eq!(with_nonce(vec![vec![1, 2], vec![3]], 9), vec![vec![1, 2], vec![3], vec![9]]);
    assert_eq!(with_nonce(vec![], 0), vec![vec![0]]);
}

#[test]
fn an_allocation_is_a_call_to_the_hosts_allocator() {
    let request = sample_request();
    let call = allocation(&request);
    assert_eq!(call.program, Address::new([0u8; 32]));
    assert_eq!(
        call.accounts,
        vec![
            AccountRole { address: request.payer, is_signer: true, is_writable: true },
            AccountRole { address: request.target, is_signer: true, is_writable: true },
        ]
    );
    let mut data = vec![0u8, 0, 0, 0];
    data.extend_from_slice(&7_850_880u64.to_le_bytes());
    data.extend_from_slice(&1000u64.to_le_bytes());
    data.extend_from_slice(&[3u8; 32]);
    assert_eq!(call.data, data);
}

#[test]
fn an_allocation_is_what_the_host_library_builds() {
    let request = sample_request();
    let expected = solana_system_interface::instruction::create_account(
        &host_key(&request.payer),
        &host_key(&request.target),
        request.deposit,
        request.byte_length as u64,
        &host_key(&request.owner),
    );
    assert_eq!(allocation(&request), as_call(expected));
}

#[test]
fn a_credit_is_a_call_to_the_sub_ledger() {
    let grant = sample_grant();
    let call = credit(&grant).unwrap();
    assert_eq!(call.program, grant.ledger_module);
    assert_eq!(
        call.accounts,
        vec![
            AccountRole { address: grant.reward_module, is_signer: false, is_writable: true },
            AccountRole { address: grant.destination, is_signer: false, is_writable: true },
            AccountRole { address: grant.authority, is_signer: true, is_writable: false },
        ]
    );
    assert_eq!(call.data, vec![7, 0x00, 0xE4, 0x0B, 0x54, 0x02, 0, 0, 0]);
}

#[test]
fn a_credit_is_what_the_sub_ledgers_library_builds() {
    for amount in [0u64, 1, 5_000_000_000, 10_000_000_000, u64::MAX] {
        let grant = RewardGrant { amount, ..sample_grant() };
        let expected = spl_token::instruction::mint_to(
            &spl_token::id(),
            &host_key(&grant.reward_module),
            &host_key(&grant.destination),
            &host_key(&grant.authority),
            &[],
            amount,
        )
        .unwrap();
        assert_eq!(credit(&grant), Some(as_call(expected)));
    }
}

#[test]
fn no_credit_is_asked_of_another_sub_ledger() {
    let grant = RewardGrant { ledger_module: Address::new([9u8; 32]), ..sample_grant() };
    assert_eq!(credit(&grant), None);
    let system = RewardGrant { ledger_module: Address::new([0u8; 32]), ..sample_grant() };
    assert_eq!(credit(&system), None);
}

#[test]
fn an_asset_takes_eighty_two_bytes() {
    assert_eq!(asset_slot_len(), 82);
    assert_eq!(MINT_LEN, spl_token::state::Mint::LEN);
}

#[test]
fn an_initialization_is_a_call_to_the_sub_ledger() {
    let setup = MintSetup {
        slot: SlotRequest {
            owner: Address::new(spl_token::id().to_bytes()),
            byte_length: 82,
            ..sample_request()
        },
        authority: Address::new([6u8; 32]),
        decimals: 9,
    };
    let call = initialization(&setup).unwrap();
    assert_eq!(call.program, setup.slot.owner);
    assert_eq!(
        call.accounts,
        vec![AccountRole { address: setup.slot.target, is_signer: false, is_writable: true }]
    );
    let mut data = vec![20u8, 9];
    data.extend_from_slice(&[6u8; 32]);
    data.push(0);
    assert_eq!(call.data, data);
    let expected = spl_token::instruction::initialize_mint2(
        &spl_token::id(),
        &host_key(&setup.slot.target),
        &host_key(&setup.authority),
        None,
        9,
    )
    .unwrap();
    assert_eq!(call, as_call(expected));
    let foreign = MintSetup { slot: sample_request(), ..setup };
    assert_eq!(initialization(&foreign), None);
}
