use solana_program::pubkey::Pubkey;
use spot_surf::address::Address;
use spot_surf::deposit::DepositSchedule;
use spot_surf::error::SpotSurfError;
use spot_surf::host::{MintSetup, RewardGrant, SlotRequest};
use spot_surf::instructions::add_comment::{
    add_comment, append_comment, CommentAccounts, CommentDerivation, COMMENT_ROLES,
};
use spot_surf::instructions::add_spot_surf::{
    add_spot_surf, check_rating, create_profile, seeds_of_counter, seeds_of_profile,
    ProfileAccounts, ProfileDerivation, COUNTER_SLOT_LEN, PROFILE_ROLES,
};
use spot_surf::instructions::initialize_token_mint::{initialize_token_mint, MINT_ROLES};
use spot_surf::instructions::update_spot_surf::{update_student_intro, UPDATE_ROLES};
use spot_surf::lifecycle::{read_comment, read_counter, read_profile, PROFILE_SLOT_LEN};
use spot_surf::reward::{RewardDerivation, COMMENT_REWARD, PROFILE_REWARD};
use spot_surf::state::{Comment, CommentCounter, SpotSurfInfo};
use spot_surf::store::SlotStore;

fn module() -> Address {
    Address::new([7u8; 32])
}

fn rates() -> DepositSchedule {
    DepositSchedule {
        lamports_per_byte: 6960,
        exemption_threshold: [0, 0, 0, 0, 0, 0, 240, 63],
        burn_percent: 50,
    }
}

fn key_of(address: &Address) -> Pubkey {
    Pubkey::new_from_array(address.bytes)
}

fn found(seeds: &[&[u8]]) -> (Address, u8) {
    let (key, nonce) = Pubkey::find_program_address(seeds, &key_of(&module()));
    (Address::new(key.to_bytes()), nonce)
}

fn balance_of(contributor: &Address) -> Address {
    let (mint, _) = found(&[b"reward-asset"]);
    Address::new(
        spl_associated_token_account::get_associated_token_address(
            &key_of(contributor),
            &key_of(&mint),
        )
        .to_bytes(),
    )
}

fn ledger() -> Address {
    Address::new(spl_token::id().to_bytes())
}

fn profile_of(contributor: &Address) -> Address {
    found(&[&contributor.bytes]).0
}

fn counter_of(contributor: &Address) -> Address {
    found(&[&profile_of(contributor).bytes, b"reply"]).0
}

fn comment_of(contributor: &Address, identity: u8) -> Address {
    found(&[&profile_of(contributor).bytes, &[identity]]).0
}

fn creation_roles(contributor: &Address) -> Vec<Address> {
    vec![
        *contributor,
        profile_of(contributor),
        counter_of(contributor),
        found(&[b"reward-asset"]).0,
        found(&[b"reward-authority"]).0,
        balance_of(contributor),
        Address::new([0u8; 32]),
        ledger(),
    ]
}

fn comment_roles(commenter: &Address, contributor: &Address, identity: u8) -> Vec<Address> {
    vec![
        *commenter,
        profile_of(contributor),
        counter_of(contributor),
        comment_of(contributor, identity),
        found(&[b"reward-asset"]).0,
        found(&[b"reward-authority"]).0,
        balance_of(commenter),
        Address::new([0u8; 32]),
        ledger(),
    ]
}

fn surfer() -> Address {
    Address::new([1u8; 32])
}

fn store_with_profile() -> SlotStore {
    let mut store = SlotStore::new();
    add_spot_surf(&module(), &mut store, &rates(),
        &creation_roles(&surfer()),
        "Pipeline".to_string(),
        "Clean break".to_string(),
        5,
    )
    .unwrap();
    store
}

fn snapshot(store: &SlotStore, addresses: &[Address]) -> Vec<Option<(Address, Vec<u8>)>> {
    addresses
        .iter()
        .map(|a| store.data(a).map(|data| (store.owner(a).unwrap(), data.clone())))
        .collect()
}

#[test]
fn a_profile_is_created_with_its_counter_and_a_reward() {
    let mut store = SlotStore::new();
    let roles = creation_roles(&surfer());
    let created = add_spot_surf(&module(), &mut store, &rates(),
        &roles,
        "Pipeline".to_string(),
        "Clean break".to_string(),
        5,
    )
    .unwrap();

    let profile = read_profile(&store, &roles[1]).unwrap().unwrap();
    assert_eq!(
        profile,
        SpotSurfInfo {
            discriminator: "spot_surf_info".to_string(),
            is_init: true,
            name: "Pipeline".to_string(),
            rate: 5,
            review: "Clean break".to_string(),
        }
    );
    assert_eq!(store.data(&roles[1]).unwrap().len(), 1000);
    assert_eq!(store.owner(&roles[1]), Some(module()));
    let mut expected = profile.encode().unwrap();
    expected.resize(1000, 0);
    assert_eq!(store.data(&roles[1]), Some(&expected));

    let counter = read_counter(&store, &roles[2]).unwrap().unwrap();
    assert_eq!(
        counter,
        CommentCounter { discriminator: "counter".to_string(), is_init: true, counter: 0 }
    );
    assert_eq!(store.data(&roles[2]), Some(&counter.encode().unwrap()));
    assert_eq!(store.data(&roles[2]).unwrap().len(), 13);
    assert_eq!(store.owner(&roles[2]), Some(module()));

    assert_eq!(
        created.profile,
        SlotRequest {
            payer: surfer(),
            target: roles[1],
            owner: module(),
            deposit: (128 + 1000) * 6960,
            byte_length: 1000,
            seeds: vec![vec![1u8; 32], vec![found(&[&[1u8; 32]]).1]],
        }
    );
    assert_eq!(
        created.counter,
        SlotRequest {
            payer: surfer(),
            target: roles[2],
            owner: module(),
            deposit: (128 + 13) * 6960,
            byte_length: 13,
            seeds: vec![
                roles[1].to_vec(),
                b"reply".to_vec(),
                vec![found(&[&roles[1].bytes, b"reply"]).1]
            ],
        }
    );
    assert_eq!(
        created.reward,
        RewardGrant {
            ledger_module: ledger(),
            reward_module: roles[3],
            destination: balance_of(&surfer()),
            authority: roles[4],
            amount: PROFILE_REWARD,
            authority_seeds: vec![
                b"reward-authority".to_vec(),
                vec![found(&[b"reward-authority"]).1]
            ],
        }
    );
    assert_eq!(created.reward.amount, 10_000_000_000);
}

#[test]
fn the_slot_lengths_are_fixed() {
    assert_eq!(PROFILE_SLOT_LEN, 1000);
    assert_eq!(COUNTER_SLOT_LEN, 13);
    assert_eq!(PROFILE_ROLES, 8);
    assert_eq!(COMMENT_ROLES, 9);
    assert_eq!(UPDATE_ROLES, 2);
    assert_eq!(MINT_ROLES, 5);
}

#[test]
fn the_seeds_of_a_profile_and_its_counter() {
    assert_eq!(seeds_of_profile(&surfer()), vec![vec![1u8; 32]]);
    assert_eq!(seeds_of_counter(&surfer()), vec![vec![1u8; 32], b"reply".to_vec()]);
}

#[test]
fn a_rating_lies_between_one_and_five() {
    for rating in 1..=5u16 {
        assert_eq!(check_rating(rating), Ok(()));
    }
    for rating in [0u16, 6, 7, 255, 256, u16::MAX] {
        assert_eq!(check_rating(rating), Err(SpotSurfError::InvalidRating));
    }
}

#[test]
fn a_rating_out_of_range_leaves_no_slot() {
    for rating in [0u16, 6, 100, u16::MAX] {
        let mut store = SlotStore::new();
        let roles = creation_roles(&surfer());
        assert_eq!(
            add_spot_surf(
                &module(),
                &mut store,
                &rates(),
                &roles,
                "a".to_string(),
                "b".to_string(),
                rating,
            ),
            Err(SpotSurfError::InvalidRating)
        );
        for role in &roles {
            assert!(!store.contains(role));
        }
    }
}

#[test]
fn every_rating_in_range_is_accepted() {
    for rating in 1..=5u16 {
        let mut store = SlotStore::new();
        let roles = creation_roles(&surfer());
        assert!(add_spot_surf(&module(), &mut store, &rates(),
            &roles,
            "a".to_string(),
            "b".to_string(),
            rating
        )
        .is_ok());
        assert_eq!(read_profile(&store, &roles[1]).unwrap().unwrap().rate, rating);
    }
}

#[test]
fn a_profile_slot_that_is_not_derived_is_refused_whatever_the_payload() {
    for (name, review, rating) in [("Pipeline", "Clean break", 5u16), ("", "", 0), ("x", "y", 9)] {
        let mut store = SlotStore::new();
        let mut roles = creation_roles(&surfer());
        roles[1] = Address::new([42u8; 32]);
        assert_eq!(
            add_spot_surf(&module(), &mut store, &rates(),
                &roles,
                name.to_string(),
                review.to_string(),
                rating
            ),
            Err(SpotSurfError::InvalidPDA)
        );
        assert!(!store.contains(&roles[1]));
    }
    let mut store = SlotStore::new();
    let mut roles = creation_roles(&surfer());
    roles[1] = profile_of(&Address::new([2u8; 32]));
    assert_eq!(
        add_spot_surf(&module(), &mut store, &rates(), &roles, "a".to_string(), "b".to_string(), 3),
        Err(SpotSurfError::InvalidPDA)
    );
    let long = "w".repeat(2000);
    assert_eq!(
        add_spot_surf(&module(), &mut store, &rates(), &roles, long.clone(), long, 3),
        Err(SpotSurfError::InvalidPDA)
    );
}

#[test]
fn a_second_creation_is_refused_and_changes_nothing() {
    let mut store = store_with_profile();
    let roles = creation_roles(&surfer());
    let before = snapshot(&store, &roles);
    assert_eq!(
        add_spot_surf(&module(), &mut store, &rates(),
            &roles,
            "Pipeline".to_string(),
            "Clean break".to_string(),
            5
        ),
        Err(SpotSurfError::AlreadyInitialized)
    );
    assert_eq!(
        add_spot_surf(
            &module(),
            &mut store,
            &rates(),
            &roles,
            "Other".to_string(),
            "Text".to_string(),
            1,
        ),
        Err(SpotSurfError::AlreadyInitialized)
    );
    assert_eq!(snapshot(&store, &roles), before);
    assert_eq!(
        read_profile(&store, &roles[1]).unwrap().unwrap().review,
        "Clean break".to_string()
    );
}

#[test]
fn a_record_that_does_not_fit_the_slot_is_refused() {
    let mut store = SlotStore::new();
    let roles = creation_roles(&surfer());
    let room = 1000 - ((4 + 14) + 1 + 4 + 2 + 4);
    assert_eq!(
        add_spot_surf(
            &module(),
            &mut store,
            &rates(),
            &roles,
            "n".repeat(room + 1),
            String::new(),
            3,
        ),
        Err(SpotSurfError::InvalidDataLength)
    );
    assert!(!store.contains(&roles[1]));
    assert!(add_spot_surf(
        &module(),
        &mut store,
        &rates(),
        &roles,
        "n".repeat(room),
        String::new(),
        3,
    )
        .is_ok());
    assert_eq!(read_profile(&store, &roles[1]).unwrap().unwrap().name, "n".repeat(room));
}

#[test]
fn too_few_slots_are_refused() {
    let mut store = SlotStore::new();
    let mut roles = creation_roles(&surfer());
    roles.pop();
    assert_eq!(
        add_spot_surf(&module(), &mut store, &rates(), &roles, "a".to_string(), "b".to_string(), 3),
        Err(SpotSurfError::NotEnoughAccountKeys)
    );
    assert_eq!(
        add_spot_surf(
            &module(),
            &mut store,
            &rates(),
            &vec![],
            "a".to_string(),
            "b".to_string(),
            9,
        ),
        Err(SpotSurfError::NotEnoughAccountKeys)
    );
    assert_eq!(ProfileAccounts::from_list(&roles), Err(SpotSurfError::NotEnoughAccountKeys));
    let all = creation_roles(&surfer());
    let named = ProfileAccounts::from_list(&all).unwrap();
    assert_eq!(named.payer, all[0]);
    assert_eq!(named.profile, all[1]);
    assert_eq!(named.counter, all[2]);
    assert_eq!(named.reward_module, all[3]);
    assert_eq!(named.authority, all[4]);
    assert_eq!(named.balance, all[5]);
    assert_eq!(named.system_module, all[6]);
    assert_eq!(named.ledger_module, all[7]);
    assert_eq!(named.reward().contributor, all[0]);
}

#[test]
fn a_counter_slot_that_is_not_derived_is_refused() {
    let mut store = SlotStore::new();
    let mut roles = creation_roles(&surfer());
    roles[2] = Address::new([42u8; 32]);
    assert_eq!(
        add_spot_surf(&module(), &mut store, &rates(), &roles, "a".to_string(), "b".to_string(), 3),
        Err(SpotSurfError::InvalidPDA)
    );
    assert!(!store.contains(&roles[1]));
}

#[test]
fn a_creation_with_spoofed_reward_roles_writes_nothing() {
    for (role, error) in [
        (3usize, SpotSurfError::IncorrectAccountError),
        (4, SpotSurfError::InvalidPDA),
        (5, SpotSurfError::IncorrectAccountError),
        (7, SpotSurfError::IncorrectAccountError),
    ] {
        let mut store = SlotStore::new();
        let mut roles = creation_roles(&surfer());
        roles[role] = Address::new([42u8; 32]);
        assert_eq!(
            add_spot_surf(
                &module(),
                &mut store,
                &rates(),
                &roles,
                "a".to_string(),
                "b".to_string(),
                3,
            ),
            Err(error)
        );
        assert!(!store.contains(&roles[1]));
        assert!(!store.contains(&roles[2]));
    }
}

#[test]
fn a_creation_over_an_occupied_slot_is_refused() {
    let roles = creation_roles(&surfer());
    let mut blank = SlotStore::new();
    blank.create_slot(roles[1], module(), 1000).unwrap();
    assert_eq!(
        add_spot_surf(&module(), &mut blank, &rates(), &roles, "a".to_string(), "b".to_string(), 3),
        Err(SpotSurfError::SlotCreationFailed)
    );
    let mut malformed = SlotStore::new();
    malformed.load(roles[1], module(), vec![1, 2, 3]);
    assert_eq!(
        add_spot_surf(
            &module(),
            &mut malformed,
            &rates(),
            &roles,
            "a".to_string(),
            "b".to_string(),
            3,
        ),
        Err(SpotSurfError::DecodeError)
    );
    let mut counter_there = SlotStore::new();
    counter_there.create_slot(roles[2], module(), 13).unwrap();
    assert_eq!(
        add_spot_surf(
            &module(),
            &mut counter_there,
            &rates(),
            &roles,
            "a".to_string(),
            "b".to_string(),
            3,
        ),
        Err(SpotSurfError::SlotCreationFailed)
    );
    assert!(!counter_there.contains(&roles[1]));
}

#[test]
fn the_creation_goes_by_what_was_derived() {
    let accounts = ProfileAccounts {
        payer: Address::new([1u8; 32]),
        profile: Address::new([2u8; 32]),
        counter: Address::new([3u8; 32]),
        reward_module: Address::new([4u8; 32]),
        authority: Address::new([5u8; 32]),
        balance: Address::new([6u8; 32]),
        system_module: Address::new([0u8; 32]),
        ledger_module: Address::new([8u8; 32]),
    };
    let derivation = ProfileDerivation {
        profile: Some((accounts.profile, 201)),
        counter: Some((accounts.counter, 202)),
        reward: RewardDerivation {
            asset: Some((accounts.reward_module, 203)),
            authority: Some((accounts.authority, 204)),
            balance: Some((accounts.balance, 205)),
            ledger_module: accounts.ledger_module,
        },
    };
    let mut store = SlotStore::new();
    let created = create_profile(&mut store, &module(), &rates(),
        &accounts,
        &derivation,
        "n".to_string(),
        "r".to_string(),
        1,
    )
    .unwrap();
    assert_eq!(created.profile.seeds, vec![vec![1u8; 32], vec![201]]);
    assert_eq!(created.counter.seeds, vec![vec![2u8; 32], b"reply".to_vec(), vec![202]]);
    assert_eq!(created.reward.authority_seeds, vec![b"reward-authority".to_vec(), vec![204]]);
    assert!(store.contains(&accounts.profile));
    assert!(store.contains(&accounts.counter));

    let same_slot = ProfileAccounts { counter: accounts.profile, ..accounts };
    let same_found = ProfileDerivation { counter: Some((accounts.profile, 202)), ..derivation };
    let mut fresh = SlotStore::new();
    assert_eq!(
        create_profile(&mut fresh, &module(), &rates(),
            &same_slot,
            &same_found,
            "n".to_string(),
            "r".to_string(),
            1
        ),
        Err(SpotSurfError::SlotCreationFailed)
    );
    assert!(!fresh.contains(&accounts.profile));
    let none = ProfileDerivation { profile: None, ..derivation };
    assert_eq!(
        create_profile(&mut fresh, &module(), &rates(),
            &accounts,
            &none,
            "n".to_string(),
            "r".to_string(),
            1
        ),
        Err(SpotSurfError::InvalidPDA)
    );
}

#[test]
fn an_update_replaces_rating_and_review_and_keeps_the_name() {
    let mut store = store_with_profile();
    let roles = vec![surfer(), profile_of(&surfer())];
    assert_eq!(
        update_student_intro(
            &module(),
            &mut store,
            &roles,
            "Jaws".to_string(),
            "Blown out".to_string(),
            2
        ),
        Ok(())
    );
    assert_eq!(
        read_profile(&store, &roles[1]).unwrap().unwrap(),
        SpotSurfInfo {
            discriminator: "spot_surf_info".to_string(),
            is_init: true,
            name: "Pipeline".to_string(),
            rate: 2,
            review: "Blown out".to_string(),
        }
    );
    assert_eq!(store.data(&roles[1]).unwrap().len(), 1000);
    assert_eq!(store.owner(&roles[1]), Some(module()));
    assert_eq!(read_counter(&store, &counter_of(&surfer())).unwrap().unwrap().counter, 0);
}

#[test]
fn an_update_of_a_profile_that_was_never_created_is_refused() {
    let mut store = SlotStore::new();
    let roles = vec![surfer(), profile_of(&surfer())];
    assert_eq!(
        update_student_intro(
            &module(),
            &mut store,
            &roles,
            "a".to_string(),
            "b".to_string(),
            3
        ),
        Err(SpotSurfError::UninitializedAccount)
    );
    assert_eq!(
        update_student_intro(
            &module(),
            &mut store,
            &vec![surfer(), Address::new([42u8; 32])],
            "a".to_string(),
            "b".to_string(),
            99
        ),
        Err(SpotSurfError::UninitializedAccount)
    );
    store.create_slot(roles[1], module(), 1000).unwrap();
    assert_eq!(
        update_student_intro(
            &module(),
            &mut store,
            &roles,
            "a".to_string(),
            "b".to_string(),
            3
        ),
        Err(SpotSurfError::UninitializedAccount)
    );
    assert_eq!(store.data(&roles[1]), Some(&vec![0u8; 1000]));
}

#[test]
fn a_refused_update_changes_nothing() {
    let roles = vec![surfer(), profile_of(&surfer())];
    let cases: Vec<(Vec<Address>, String, u16, SpotSurfError)> = vec![
        (vec![surfer()], "b".to_string(), 3, SpotSurfError::NotEnoughAccountKeys),
        (
            vec![Address::new([2u8; 32]), profile_of(&surfer())],
            "b".to_string(),
            3,
            SpotSurfError::InvalidPDA,
        ),
        (roles.clone(), "w".repeat(1000), 3, SpotSurfError::InvalidDataLength),
        (roles.clone(), "b".to_string(), 0, SpotSurfError::InvalidRating),
        (roles.clone(), "b".to_string(), 6, SpotSurfError::InvalidRating),
        (roles.clone(), "w".repeat(1000), 0, SpotSurfError::InvalidDataLength),
    ];
    for (accounts, review, rating, error) in cases {
        let mut store = store_with_profile();
        let before = snapshot(&store, &creation_roles(&surfer()));
        assert_eq!(
            update_student_intro(&module(), &mut store, &accounts, String::new(), review, rating),
            Err(error)
        );
        assert_eq!(snapshot(&store, &creation_roles(&surfer())), before);
    }
}

#[test]
fn an_update_of_a_foreign_or_malformed_slot_is_refused() {
    let roles = vec![surfer(), profile_of(&surfer())];
    let record = read_profile(&store_with_profile(), &roles[1]).unwrap().unwrap();
    let mut bytes = record.encode().unwrap();
    bytes.resize(1000, 0);
    let mut foreign = SlotStore::new();
    foreign.load(roles[1], Address::new([9u8; 32]), bytes);
    assert_eq!(
        update_student_intro(&module(), &mut foreign, &roles, String::new(), "b".to_string(), 3),
        Err(SpotSurfError::IllegalOwner)
    );
    let mut malformed = SlotStore::new();
    malformed.load(roles[1], module(), vec![0xFF; 10]);
    assert_eq!(
        update_student_intro(&module(), &mut malformed, &roles, String::new(), "b".to_string(), 3),
        Err(SpotSurfError::DecodeError)
    );
}

#[test]
fn an_update_may_fill_the_slot_to_the_last_byte() {
    let mut store = store_with_profile();
    let roles = vec![surfer(), profile_of(&surfer())];
    let room = 1000 - ((4 + 14) + 1 + (4 + 8) + 2 + 4);
    assert_eq!(
        update_student_intro(&module(), &mut store, &roles, String::new(), "w".repeat(room), 1),
        Ok(())
    );
    assert_eq!(read_profile(&store, &roles[1]).unwrap().unwrap().review, "w".repeat(room));
    assert_eq!(
        update_student_intro(&module(), &mut store, &roles, String::new(), "w".repeat(room + 1), 1),
        Err(SpotSurfError::InvalidDataLength)
    );
    assert_eq!(
        update_student_intro(&module(), &mut store, &roles, String::new(), String::new(), 4),
        Ok(())
    );
    let after = read_profile(&store, &roles[1]).unwrap().unwrap();
    assert_eq!(after.review, "");
    assert_eq!(after.rate, 4);
}

#[test]
fn a_comment_takes_the_count_as_its_identity() {
    let mut store = store_with_profile();
    let commenter = Address::new([2u8; 32]);
    let roles = comment_roles(&commenter, &surfer(), 0);
    let added = add_comment(
        &module(),
        &mut store,
        &rates(),
        &roles,
        "Great waves".to_string(),
    ).unwrap();
    assert_eq!(added.identity, 0);
    assert_eq!(read_counter(&store, &roles[2]).unwrap().unwrap().counter, 1);
    let comment = Comment {
        discriminator: "reply".to_string(),
        is_init: true,
        spot_info: profile_of(&surfer()),
        comment: "Great waves".to_string(),
    };
    assert_eq!(read_comment(&store, &roles[3]), Ok(Some(comment.clone())));
    assert_eq!(store.data(&roles[3]), Some(&comment.encode().unwrap()));
    assert_eq!(store.owner(&roles[3]), Some(module()));
    assert_eq!(
        added.comment,
        SlotRequest {
            payer: commenter,
            target: roles[3],
            owner: module(),
            deposit: (128 + 57) * 6960,
            byte_length: (4 + 5) + 1 + 32 + (4 + 11),
            seeds: vec![
                roles[1].to_vec(),
                vec![0],
                vec![found(&[&roles[1].bytes, &[0]]).1]
            ],
        }
    );
    assert_eq!(added.reward.amount, COMMENT_REWARD);
    assert_eq!(added.reward.amount, 5_000_000_000);
    assert_eq!(added.reward.destination, balance_of(&commenter));
    assert_eq!(added.reward.reward_module, roles[4]);
    assert_eq!(added.reward.authority, roles[5]);
    assert_eq!(added.reward.ledger_module, ledger());
    assert_eq!(
        read_profile(&store, &roles[1]).unwrap().unwrap().review,
        "Clean break".to_string()
    );
}

#[test]
fn comments_are_numbered_from_zero_without_gap_or_repeat() {
    let mut store = store_with_profile();
    for n in 0..12u8 {
        let commenter = Address::new([100 + n; 32]);
        let roles = comment_roles(&commenter, &surfer(), n);
        let added = add_comment(
            &module(),
            &mut store,
            &rates(),
            &roles,
            format!("comment {}", n),
        ).unwrap();
        assert_eq!(added.identity, n);
        assert_eq!(read_counter(&store, &roles[2]).unwrap().unwrap().counter, n + 1);
        for earlier in 0..=n {
            let record = read_comment(&store, &comment_of(&surfer(), earlier)).unwrap().unwrap();
            assert_eq!(record.comment, format!("comment {}", earlier));
        }
        assert!(!store.contains(&comment_of(&surfer(), n + 1)));
    }
}

#[test]
fn a_comment_at_the_address_of_another_identity_is_refused() {
    let mut store = store_with_profile();
    let commenter = Address::new([2u8; 32]);
    let before = snapshot(&store, &comment_roles(&commenter, &surfer(), 1));
    assert_eq!(
        add_comment(&module(), &mut store, &rates(),
            &comment_roles(&commenter, &surfer(), 1),
            "x".to_string()
        ),
        Err(SpotSurfError::InvalidPDA)
    );
    assert_eq!(snapshot(&store, &comment_roles(&commenter, &surfer(), 1)), before);
    add_comment(
        &module(),
        &mut store,
        &rates(),
        &comment_roles(&commenter, &surfer(), 0),
        "x".to_string(),
    )
        .unwrap();
    assert_eq!(
        add_comment(&module(), &mut store, &rates(),
            &comment_roles(&commenter, &surfer(), 0),
            "again".to_string()
        ),
        Err(SpotSurfError::InvalidPDA)
    );
    assert_eq!(read_counter(&store, &counter_of(&surfer())).unwrap().unwrap().counter, 1);
}

#[test]
fn a_refused_comment_changes_nothing() {
    let commenter = Address::new([2u8; 32]);
    let valid = comment_roles(&commenter, &surfer(), 0);
    let mut cases: Vec<(Vec<Address>, SpotSurfError)> = Vec::new();
    cases.push((valid[..8].to_vec(), SpotSurfError::NotEnoughAccountKeys));
    for (role, error) in [
        (2usize, SpotSurfError::InvalidPDA),
        (3, SpotSurfError::InvalidPDA),
        (4, SpotSurfError::IncorrectAccountError),
        (5, SpotSurfError::InvalidPDA),
        (6, SpotSurfError::IncorrectAccountError),
        (8, SpotSurfError::IncorrectAccountError),
    ] {
        let mut roles = valid.clone();
        roles[role] = Address::new([42u8; 32]);
        cases.push((roles, error));
    }
    for (roles, error) in cases {
        let mut store = store_with_profile();
        let before = snapshot(&store, &valid);
        assert_eq!(
            add_comment(&module(), &mut store, &rates(), &roles, "x".to_string()),
            Err(error),
        );
        assert_eq!(snapshot(&store, &valid), before);
        assert!(!store.contains(&Address::new([42u8; 32])));
    }
}

#[test]
fn a_comment_under_a_profile_that_was_never_created_is_refused() {
    let mut store = SlotStore::new();
    let commenter = Address::new([2u8; 32]);
    let roles = comment_roles(&commenter, &surfer(), 0);
    assert_eq!(
        add_comment(&module(), &mut store, &rates(), &roles, "x".to_string()),
        Err(SpotSurfError::UninitializedAccount)
    );
    store.create_slot(roles[2], module(), 13).unwrap();
    assert_eq!(
        add_comment(&module(), &mut store, &rates(), &roles, "x".to_string()),
        Err(SpotSurfError::UninitializedAccount)
    );
    assert!(!store.contains(&roles[3]));
}

#[test]
fn a_comment_under_a_foreign_or_malformed_counter_is_refused() {
    let commenter = Address::new([2u8; 32]);
    let roles = comment_roles(&commenter, &surfer(), 0);
    let counter =
        CommentCounter { discriminator: "counter".to_string(), is_init: true, counter: 0 };
    let mut foreign = SlotStore::new();
    foreign.load(roles[2], Address::new([9u8; 32]), counter.encode().unwrap());
    assert_eq!(
        add_comment(&module(), &mut foreign, &rates(), &roles, "x".to_string()),
        Err(SpotSurfError::IllegalOwner)
    );
    let mut malformed = SlotStore::new();
    malformed.load(roles[2], module(), vec![7, 0, 0, 0, 1]);
    assert_eq!(
        add_comment(&module(), &mut malformed, &rates(), &roles, "x".to_string()),
        Err(SpotSurfError::DecodeError)
    );
}

#[test]
fn a_comment_where_a_slot_stands_already_is_refused() {
    let commenter = Address::new([2u8; 32]);
    let roles = comment_roles(&commenter, &surfer(), 0);
    let mut store = store_with_profile();
    store.create_slot(roles[3], module(), 60).unwrap();
    assert_eq!(
        add_comment(&module(), &mut store, &rates(), &roles, "x".to_string()),
        Err(SpotSurfError::SlotCreationFailed)
    );
    assert_eq!(read_counter(&store, &roles[2]).unwrap().unwrap().counter, 0);
    let mut written = store_with_profile();
    let old = Comment {
        discriminator: "reply".to_string(),
        is_init: true,
        spot_info: roles[1],
        comment: "old".to_string(),
    };
    written.load(roles[3], module(), old.encode().unwrap());
    assert_eq!(
        add_comment(&module(), &mut written, &rates(), &roles, "x".to_string()),
        Err(SpotSurfError::AlreadyInitialized)
    );
    assert_eq!(read_comment(&written, &roles[3]), Ok(Some(old)));
}

#[test]
fn the_counter_never_wraps() {
    let commenter = Address::new([2u8; 32]);
    let mut store = SlotStore::new();
    let full = CommentCounter { discriminator: "counter".to_string(), is_init: true, counter: 255 };
    let roles = comment_roles(&commenter, &surfer(), 255);
    store.load(roles[2], module(), full.encode().unwrap());
    assert_eq!(
        add_comment(&module(), &mut store, &rates(), &roles, "x".to_string()),
        Err(SpotSurfError::CounterOverflow)
    );
    assert_eq!(read_counter(&store, &roles[2]), Ok(Some(full)));
    assert!(!store.contains(&roles[3]));

    let mut last = SlotStore::new();
    let almost =
        CommentCounter { discriminator: "counter".to_string(), is_init: true, counter: 254 };
    let roles = comment_roles(&commenter, &surfer(), 254);
    last.load(roles[2], module(), almost.encode().unwrap());
    let added = add_comment(&module(), &mut last, &rates(), &roles, "x".to_string()).unwrap();
    assert_eq!(added.identity, 254);
    assert_eq!(read_counter(&last, &roles[2]).unwrap().unwrap().counter, 255);
}

#[test]
fn an_empty_comment_is_a_comment() {
    let mut store = store_with_profile();
    let commenter = Address::new([2u8; 32]);
    let roles = comment_roles(&commenter, &surfer(), 0);
    let added = add_comment(&module(), &mut store, &rates(), &roles, String::new()).unwrap();
    assert_eq!(added.comment.byte_length, 46);
    assert_eq!(store.data(&roles[3]).unwrap().len(), 46);
    assert_eq!(read_comment(&store, &roles[3]).unwrap().unwrap().comment, "");
}

#[test]
fn the_comment_goes_by_what_was_derived() {
    let accounts = CommentAccounts {
        payer: Address::new([1u8; 32]),
        profile: Address::new([2u8; 32]),
        counter: Address::new([3u8; 32]),
        comment: Address::new([4u8; 32]),
        reward_module: Address::new([5u8; 32]),
        authority: Address::new([6u8; 32]),
        balance: Address::new([8u8; 32]),
        system_module: Address::new([0u8; 32]),
        ledger_module: Address::new([9u8; 32]),
    };
    let derivation = CommentDerivation {
        counter: Some((accounts.counter, 201)),
        comment: Some((accounts.comment, 202)),
        reward: RewardDerivation {
            asset: Some((accounts.reward_module, 203)),
            authority: Some((accounts.authority, 204)),
            balance: Some((accounts.balance, 205)),
            ledger_module: accounts.ledger_module,
        },
    };
    let counter =
        CommentCounter { discriminator: "counter".to_string(), is_init: true, counter: 9 };
    let mut store = SlotStore::new();
    let mut roomy = counter.encode().unwrap();
    roomy.extend_from_slice(&[0xAB; 4]);
    store.load(accounts.counter, module(), roomy);
    let added =
        append_comment(
            &mut store,
            &module(),
            &rates(),
            &accounts,
            &derivation,
            "hi".to_string(),
        ).unwrap();
    assert_eq!(added.identity, 9);
    assert_eq!(added.comment.seeds, vec![vec![2u8; 32], vec![9], vec![202]]);
    assert_eq!(added.reward.authority_seeds, vec![b"reward-authority".to_vec(), vec![204]]);
    let mut expected = CommentCounter { counter: 10, ..counter }.encode().unwrap();
    expected.extend_from_slice(&[0xAB; 4]);
    assert_eq!(store.data(&accounts.counter), Some(&expected));
    let none = CommentDerivation { comment: None, ..derivation };
    assert_eq!(
        append_comment(&mut store, &module(), &rates(), &accounts, &none, "hi".to_string()),
        Err(SpotSurfError::InvalidPDA)
    );
}

#[test]
fn the_reward_asset_is_set_up_for_the_derived_roles() {
    let payer = Address::new([1u8; 32]);
    let roles = vec![
        payer,
        found(&[b"reward-asset"]).0,
        found(&[b"reward-authority"]).0,
        Address::new([0u8; 32]),
        ledger(),
    ];
    assert_eq!(
        initialize_token_mint(&module(), &rates(), &roles),
        Ok(MintSetup {
            slot: SlotRequest {
                payer,
                target: roles[1],
                owner: ledger(),
                deposit: (128 + 82) * 6960,
                byte_length: 82,
                seeds: vec![b"reward-asset".to_vec(), vec![found(&[b"reward-asset"]).1]],
            },
            authority: roles[2],
            decimals: 9,
        })
    );
}

#[test]
fn a_set_up_with_spoofed_roles_is_refused() {
    let valid = vec![
        Address::new([1u8; 32]),
        found(&[b"reward-asset"]).0,
        found(&[b"reward-authority"]).0,
        Address::new([0u8; 32]),
        ledger(),
    ];
    assert_eq!(
        initialize_token_mint(&module(), &rates(), &valid[..4].to_vec()),
        Err(SpotSurfError::NotEnoughAccountKeys)
    );
    for (role, error) in [
        (1usize, SpotSurfError::IncorrectAccountError),
        (2, SpotSurfError::InvalidPDA),
        (4, SpotSurfError::IncorrectAccountError),
    ] {
        let mut roles = valid.clone();
        roles[role] = Address::new([42u8; 32]);
        assert_eq!(initialize_token_mint(&module(), &rates(), &roles), Err(error));
    }
    assert_eq!(
        initialize_token_mint(&Address::new([8u8; 32]), &rates(), &valid),
        Err(SpotSurfError::IncorrectAccountError)
    );
}

#[test]
fn a_creation_without_a_deposit_is_refused() {
    let odd = DepositSchedule { exemption_threshold: 1.5f64.to_le_bytes(), ..rates() };
    let steep = DepositSchedule { lamports_per_byte: u64::MAX, ..rates() };
    for schedule in [odd, steep] {
        let mut store = SlotStore::new();
        let roles = creation_roles(&surfer());
        assert_eq!(
            add_spot_surf(
                &module(),
                &mut store,
                &schedule,
                &roles,
                "a".to_string(),
                "b".to_string(),
                3
            ),
            Err(SpotSurfError::SlotCreationFailed)
        );
        assert!(!store.contains(&roles[1]));
        assert!(!store.contains(&roles[2]));
        assert_eq!(
            add_spot_surf(
                &module(),
                &mut store,
                &schedule,
                &roles,
                "a".to_string(),
                "b".to_string(),
                0
            ),
            Err(SpotSurfError::InvalidRating)
        );
        assert_eq!(
            initialize_token_mint(
                &module(),
                &schedule,
                &vec![
                    surfer(),
                    found(&[b"reward-asset"]).0,
                    found(&[b"reward-authority"]).0,
                    Address::new([0u8; 32]),
                    ledger(),
                ]
            ),
            Err(SpotSurfError::SlotCreationFailed)
        );
    }
    let mut store = store_with_profile();
    let roles = creation_roles(&surfer());
    assert_eq!(
        add_spot_surf(&module(), &mut store, &odd, &roles, "a".to_string(), "b".to_string(), 3),
        Err(SpotSurfError::AlreadyInitialized)
    );
}

#[test]
fn a_comment_without_a_deposit_is_refused() {
    let odd = DepositSchedule { exemption_threshold: [0; 8], ..rates() };
    let commenter = Address::new([2u8; 32]);
    let roles = comment_roles(&commenter, &surfer(), 0);
    let mut store = store_with_profile();
    let before = snapshot(&store, &roles);
    assert_eq!(
        add_comment(&module(), &mut store, &odd, &roles, "x".to_string()),
        Err(SpotSurfError::SlotCreationFailed)
    );
    assert_eq!(snapshot(&store, &roles), before);
    let long = "w".repeat(10 * 1024 * 1024);
    assert_eq!(
        add_comment(&module(), &mut store, &rates(), &roles, long),
        Err(SpotSurfError::SlotCreationFailed)
    );
    assert_eq!(snapshot(&store, &roles), before);
    let fits = "w".repeat(10 * 1024 * 1024 - 46);
    let added = add_comment(&module(), &mut store, &rates(), &roles, fits).unwrap();
    assert_eq!(added.comment.byte_length, 10 * 1024 * 1024);
    assert_eq!(added.comment.deposit, (128 + 10 * 1024 * 1024) * 6960);
}

#[test]
fn an_update_needs_no_deposit() {
    let mut store = store_with_profile();
    let roles = vec![surfer(), profile_of(&surfer())];
    assert_eq!(
        update_student_intro(&module(), &mut store, &roles, String::new(), "b".to_string(), 4),
        Ok(())
    );
}
