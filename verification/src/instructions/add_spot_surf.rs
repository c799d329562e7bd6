//! The operation that creates the profile of a contributor.

use crate::address::{
    derive_address, derived, is_derived, nonce_in, seeds_of, spec_same_as_derived, Address,
};
use crate::deposit::{deposit_for, deposit_or_zero, minimum_deposit, DepositSchedule};
use crate::error::SpotSurfError;
use crate::host::{
    signer_seeds, with_nonce, RewardGrant, RewardGrantView, SlotRequest, SlotRequestView,
};
use crate::lifecycle::{
    check_counter_vacant, check_profile_vacant, counter_vacancy, create_slot, profile_vacancy,
    slot_data, write_counter, write_profile, PROFILE_SLOT_LEN,
};
use crate::reward::{
    check_reward, derive_reward, expected_reward, reward_grant, reward_refusal, text_seed,
    RewardAccounts, RewardDerivation, PROFILE_REWARD,
};
use crate::state::{
    counter_tag, profile_tag, tag_lengths, CommentCounter, CommentCounterView, SpotSurfInfo,
    SpotSurfInfoView,
};
use crate::store::{overwritten, zeros, SlotStore, SlotView};
use vstd::prelude::*;
use vstd::utf8::encode_utf8;

verus! {

/// The number of slot handles that the creation of a profile takes.
pub const PROFILE_ROLES: usize = 8;

/// The room that the slot of a counter is given: the length of its record.
pub const COUNTER_SLOT_LEN: usize = 13;

/// The slots that take part in the creation of a profile, by role. They are
/// passed in this order.
#[derive(Clone, Copy, Debug, PartialEq, Eq)]
pub struct ProfileAccounts {
    /// The contributor, who pays for the slots.
    pub payer: Address,
    /// The slot of the profile.
    pub profile: Address,
    /// The slot of the comment counter.
    pub counter: Address,
    /// The reward asset.
    pub reward_module: Address,
    /// The authority that may issue the asset.
    pub authority: Address,
    /// The balance of the contributor in the asset.
    pub balance: Address,
    /// The host module that allocates slots.
    pub system_module: Address,
    /// The reward sub-ledger.
    pub ledger_module: Address,
}

impl ProfileAccounts {
    /// The roles that the first eight handles of `list` fill.
    pub open spec fn of(list: Seq<Address>) -> ProfileAccounts {
        ProfileAccounts {
            payer: list[0],
            profile: list[1],
            counter: list[2],
            reward_module: list[3],
            authority: list[4],
            balance: list[5],
            system_module: list[6],
            ledger_module: list[7],
        }
    }

    /// Gives each of the first eight handles of `list` its role; fails where
    /// there are fewer.
    pub fn from_list(list: &Vec<Address>) -> (accounts: Result<ProfileAccounts, SpotSurfError>)
        ensures
            accounts == if list@.len() < PROFILE_ROLES {
                Err::<ProfileAccounts, SpotSurfError>(SpotSurfError::NotEnoughAccountKeys)
            } else {
                Ok(ProfileAccounts::of(list@))
            },
    {
        if list.len() < PROFILE_ROLES {
            return Err(SpotSurfError::NotEnoughAccountKeys);
        }
        Ok(
            ProfileAccounts {
                payer: list[0],
                profile: list[1],
                counter: list[2],
                reward_module: list[3],
                authority: list[4],
                balance: list[5],
                system_module: list[6],
                ledger_module: list[7],
            },
        )
    }

    /// The roles of the reward for the new profile.
    pub open spec fn spec_reward(self) -> RewardAccounts {
        RewardAccounts {
            contributor: self.payer,
            reward_module: self.reward_module,
            authority: self.authority,
            balance: self.balance,
            ledger_module: self.ledger_module,
        }
    }

    /// The roles of the reward for the new profile.
    #[verifier::when_used_as_spec(spec_reward)]
    pub fn reward(self) -> (roles: RewardAccounts)
        ensures
            roles == self.spec_reward(),
    {
        RewardAccounts {
            contributor: self.payer,
            reward_module: self.reward_module,
            authority: self.authority,
            balance: self.balance,
            ledger_module: self.ledger_module,
        }
    }
}

/// What the host derives for the roles of the creation of a profile.
#[derive(Clone, Copy, Debug, PartialEq, Eq)]
pub struct ProfileDerivation {
    /// The address of the profile, derived from the contributor.
    pub profile: Option<(Address, u8)>,
    /// The address of the counter, derived from the profile.
    pub counter: Option<(Address, u8)>,
    /// The addresses of the reward.
    pub reward: RewardDerivation,
}

/// What an accepted creation of a profile asks of the host: two slots and a
/// reward.
#[derive(Clone, Debug, PartialEq, Eq)]
pub struct ProfileCreated {
    pub profile: SlotRequest,
    pub counter: SlotRequest,
    pub reward: RewardGrant,
}

/// The requests of an accepted creation as mathematical values.
pub struct ProfileCreatedView {
    pub profile: SlotRequestView,
    pub counter: SlotRequestView,
    pub reward: RewardGrantView,
}

impl View for ProfileCreated {
    type V = ProfileCreatedView;

    open spec fn view(&self) -> ProfileCreatedView {
        ProfileCreatedView {
            profile: self.profile@,
            counter: self.counter@,
            reward: self.reward@,
        }
    }
}

/// The seeds of the profile of `payer`.
pub open spec fn profile_seeds(payer: Address) -> Seq<Seq<u8>> {
    seq![payer@]
}

/// The seeds of the counter of `profile`.
pub open spec fn counter_seeds(profile: Address) -> Seq<Seq<u8>> {
    seq![profile@, encode_utf8("reply"@)]
}

/// The record that the creation of a profile writes.
pub open spec fn new_profile(name: Seq<char>, rating: u16, review: Seq<char>) -> SpotSurfInfoView {
    SpotSurfInfoView { discriminator: profile_tag(), is_init: true, name, rate: rating, review }
}

/// The counter that the creation of a profile writes: no comment yet.
pub open spec fn new_counter() -> CommentCounterView {
    CommentCounterView { discriminator: counter_tag(), is_init: true, counter: 0 }
}

/// Whether `rating` lies in `1..=5`.
pub open spec fn rating_in_range(rating: u16) -> bool {
    1 <= rating <= 5
}

/// Why the creation of a profile is refused, if it is, given what the host
/// derived for its roles: the first check that fails.
///
/// The address of the profile is checked before anything of the payload; then
/// the rating, the length of the record, the address of the counter and the
/// roles of the reward; last, that neither slot is there yet and that the
/// host's schedule has a deposit for both.
pub open spec fn create_profile_refusal(
    store: Map<Address, SlotView>,
    schedule: DepositSchedule,
    accounts: ProfileAccounts,
    found: ProfileDerivation,
    name: Seq<char>,
    review: Seq<char>,
    rating: u16,
) -> Option<SpotSurfError> {
    let record = new_profile(name, rating, review);
    if !spec_same_as_derived(&accounts.profile, &found.profile) {
        Some(SpotSurfError::InvalidPDA)
    } else if !rating_in_range(rating) {
        Some(SpotSurfError::InvalidRating)
    } else if !record.encodable() || record.encoded_len() > PROFILE_SLOT_LEN {
        Some(SpotSurfError::InvalidDataLength)
    } else if !spec_same_as_derived(&accounts.counter, &found.counter) {
        Some(SpotSurfError::InvalidPDA)
    } else if reward_refusal(accounts.reward(), found.reward) is Some {
        reward_refusal(accounts.reward(), found.reward)
    } else if profile_vacancy(store, accounts.profile) is Some {
        profile_vacancy(store, accounts.profile)
    } else if accounts.counter == accounts.profile {
        Some(SpotSurfError::SlotCreationFailed)
    } else if counter_vacancy(store, accounts.counter) is Some {
        counter_vacancy(store, accounts.counter)
    } else if deposit_for(schedule, PROFILE_SLOT_LEN) is None || deposit_for(
        schedule,
        COUNTER_SLOT_LEN,
    ) is None {
        Some(SpotSurfError::SlotCreationFailed)
    } else {
        None
    }
}

/// The store after an accepted creation: a profile slot of a thousand bytes
/// that starts with the new record, and a counter slot that holds the new
/// counter, both owned by the module.
pub open spec fn with_profile(
    store: Map<Address, SlotView>,
    program_id: Address,
    accounts: ProfileAccounts,
    name: Seq<char>,
    review: Seq<char>,
    rating: u16,
) -> Map<Address, SlotView> {
    store.insert(
        accounts.profile,
        SlotView {
            owner: program_id,
            data: overwritten(
                zeros(PROFILE_SLOT_LEN as nat),
                new_profile(name, rating, review).encoding(),
            ),
        },
    ).insert(accounts.counter, SlotView { owner: program_id, data: new_counter().encoding() })
}

/// What an accepted creation asks of the host.
pub open spec fn profile_requests(
    program_id: Address,
    schedule: DepositSchedule,
    accounts: ProfileAccounts,
    found: ProfileDerivation,
) -> ProfileCreatedView {
    ProfileCreatedView {
        profile: SlotRequestView {
            payer: accounts.payer,
            target: accounts.profile,
            owner: program_id,
            deposit: deposit_or_zero(schedule, PROFILE_SLOT_LEN),
            byte_length: PROFILE_SLOT_LEN,
            seeds: signer_seeds(profile_seeds(accounts.payer), nonce_in(found.profile)),
        },
        counter: SlotRequestView {
            payer: accounts.payer,
            target: accounts.counter,
            owner: program_id,
            deposit: deposit_or_zero(schedule, COUNTER_SLOT_LEN),
            byte_length: COUNTER_SLOT_LEN,
            seeds: signer_seeds(counter_seeds(accounts.profile), nonce_in(found.counter)),
        },
        reward: reward_grant(accounts.reward(), nonce_in(found.reward.authority), PROFILE_REWARD),
    }
}

/// The seeds of the profile of `payer`.
pub fn seeds_of_profile(payer: &Address) -> (seeds: Vec<Vec<u8>>)
    ensures
        seeds_of(seeds@) == profile_seeds(*payer),
{
    let mut seeds: Vec<Vec<u8>> = Vec::new();
    seeds.push(payer.to_vec());
    assert(seeds_of(seeds@) =~= profile_seeds(*payer));
    seeds
}

/// The seeds of the counter of `profile`.
pub fn seeds_of_counter(profile: &Address) -> (seeds: Vec<Vec<u8>>)
    ensures
        seeds_of(seeds@) == counter_seeds(*profile),
{
    let mut seeds: Vec<Vec<u8>> = Vec::new();
    seeds.push(profile.to_vec());
    seeds.push(text_seed("reply"));
    assert(seeds_of(seeds@) =~= counter_seeds(*profile));
    seeds
}

/// Tests a rating against the range `1..=5`.
pub fn check_rating(rating: u16) -> (done: Result<(), SpotSurfError>)
    ensures
        done == if rating_in_range(rating) {
            Ok::<(), SpotSurfError>(())
        } else {
            Err(SpotSurfError::InvalidRating)
        },
{
    if rating > 5 || rating < 1 {
        Err(SpotSurfError::InvalidRating)
    } else {
        Ok(())
    }
}

/// The counter record of a new profile.
fn first_counter() -> (record: CommentCounter)
    ensures
        record@ == new_counter(),
{
    CommentCounter { discriminator: "counter".to_owned(), is_init: true, counter: 0 }
}

/// Creates the profile of a contributor and its comment counter, and grants
/// the reward for it, given what the host derived for the roles.
///
/// Every check is made before anything is written: a refused creation leaves
/// the store as it was.
pub fn create_profile(
    store: &mut SlotStore,
    program_id: &Address,
    schedule: &DepositSchedule,
    accounts: &ProfileAccounts,
    found: &ProfileDerivation,
    name: String,
    review: String,
    rating: u16,
) -> (created: Result<ProfileCreated, SpotSurfError>)
    ensures
        match created {
            Ok(requests) => {
                &&& create_profile_refusal(
                    old(store)@,
                    *schedule,
                    *accounts,
                    *found,
                    name@,
                    review@,
                    rating,
                ) is None
                &&& requests@ == profile_requests(*program_id, *schedule, *accounts, *found)
                &&& final(store)@ == with_profile(
                    old(store)@,
                    *program_id,
                    *accounts,
                    name@,
                    review@,
                    rating,
                )
            },
            Err(e) => {
                &&& create_profile_refusal(
                    old(store)@,
                    *schedule,
                    *accounts,
                    *found,
                    name@,
                    review@,
                    rating,
                ) == Some(e)
                &&& final(store)@ == old(store)@
            },
        },
{
    let profile_nonce = match found.profile {
        Some((address, nonce)) => {
            if !address.same(&accounts.profile) {
                return Err(SpotSurfError::InvalidPDA);
            }
            nonce
        },
        None => {
            return Err(SpotSurfError::InvalidPDA);
        },
    };
    match check_rating(rating) {
        Ok(_) => {},
        Err(e) => {
            return Err(e);
        },
    }
    let record = SpotSurfInfo {
        discriminator: "spot_surf_info".to_owned(),
        is_init: true,
        name,
        rate: rating,
        review,
    };
    match record.encoded_len() {
        Some(len) => {
            if len > PROFILE_SLOT_LEN {
                return Err(SpotSurfError::InvalidDataLength);
            }
        },
        None => {
            return Err(SpotSurfError::InvalidDataLength);
        },
    }
    let counter_nonce = match found.counter {
        Some((address, nonce)) => {
            if !address.same(&accounts.counter) {
                return Err(SpotSurfError::InvalidPDA);
            }
            nonce
        },
        None => {
            return Err(SpotSurfError::InvalidPDA);
        },
    };
    let reward = match check_reward(&accounts.reward(), &found.reward, PROFILE_REWARD) {
        Ok(grant) => grant,
        Err(e) => {
            return Err(e);
        },
    };
    match check_profile_vacant(store, &accounts.profile) {
        Ok(_) => {},
        Err(e) => {
            return Err(e);
        },
    }
    if accounts.counter.same(&accounts.profile) {
        return Err(SpotSurfError::SlotCreationFailed);
    }
    match check_counter_vacant(store, &accounts.counter) {
        Ok(_) => {},
        Err(e) => {
            return Err(e);
        },
    }
    let (profile_deposit, counter_deposit) = match (
        minimum_deposit(schedule, PROFILE_SLOT_LEN),
        minimum_deposit(schedule, COUNTER_SLOT_LEN),
    ) {
        (Some(profile), Some(counter)) => (profile, counter),
        _ => {
            return Err(SpotSurfError::SlotCreationFailed);
        },
    };
    let profile = SlotRequest {
        payer: accounts.payer,
        target: accounts.profile,
        owner: *program_id,
        deposit: profile_deposit,
        byte_length: PROFILE_SLOT_LEN,
        seeds: with_nonce(seeds_of_profile(&accounts.payer), profile_nonce),
    };
    let counter = SlotRequest {
        payer: accounts.payer,
        target: accounts.counter,
        owner: *program_id,
        deposit: counter_deposit,
        byte_length: COUNTER_SLOT_LEN,
        seeds: with_nonce(seeds_of_counter(&accounts.profile), counter_nonce),
    };
    proof {
        tag_lengths();
        new_counter().round_trip(Seq::<u8>::empty());
        record@.round_trip(Seq::<u8>::empty());
    }
    // Every check has passed: both addresses are free and both records fit,
    // so none of the four steps below is refused.
    match create_slot(store, &profile) {
        Ok(_) => {},
        Err(e) => {
            return Err(e);
        },
    }
    match write_profile(store, &accounts.profile, &record) {
        Ok(_) => {},
        Err(e) => {
            return Err(e);
        },
    }
    match create_slot(store, &counter) {
        Ok(_) => {},
        Err(e) => {
            return Err(e);
        },
    }
    match write_counter(store, &accounts.counter, &first_counter()) {
        Ok(_) => {},
        Err(e) => {
            return Err(e);
        },
    }
    proof {
        let enc = new_counter().encoding();
        assert(overwritten(zeros(COUNTER_SLOT_LEN as nat), enc) =~= enc);
        assert(store@ =~= with_profile(
            old(store)@,
            *program_id,
            *accounts,
            record.name@,
            record.review@,
            rating,
        ));
    }
    Ok(ProfileCreated { profile, counter, reward })
}

/// What the host derives for the roles of the creation of a profile under
/// the module `program_id`.
pub open spec fn expected_profile(
    program_id: Address,
    accounts: ProfileAccounts,
) -> ProfileDerivation {
    ProfileDerivation {
        profile: derived(profile_seeds(accounts.payer), program_id@),
        counter: derived(counter_seeds(accounts.profile), program_id@),
        reward: expected_reward(program_id, accounts.payer, accounts.reward_module),
    }
}

/// Derives the addresses that the roles of the creation of a profile must
/// have.
pub fn derive_profile(program_id: &Address, accounts: &ProfileAccounts) -> (found:
    ProfileDerivation)
    ensures
        found == expected_profile(*program_id, *accounts),
{
    ProfileDerivation {
        profile: derive_address(&seeds_of_profile(&accounts.payer), program_id),
        counter: derive_address(&seeds_of_counter(&accounts.profile), program_id),
        reward: derive_reward(program_id, &accounts.payer, &accounts.reward_module),
    }
}

/// Why the creation of a profile is refused, if it is: too few slot handles,
/// or the first check that fails against what the host derives.
pub open spec fn add_spot_surf_refusal(
    store: Map<Address, SlotView>,
    program_id: Address,
    schedule: DepositSchedule,
    accounts: Seq<Address>,
    name: Seq<char>,
    review: Seq<char>,
    rating: u16,
) -> Option<SpotSurfError> {
    if accounts.len() < PROFILE_ROLES {
        Some(SpotSurfError::NotEnoughAccountKeys)
    } else {
        create_profile_refusal(
            store,
            schedule,
            ProfileAccounts::of(accounts),
            expected_profile(program_id, ProfileAccounts::of(accounts)),
            name,
            review,
            rating,
        )
    }
}

/// Creates the profile of the contributor `accounts[0]` with its comment
/// counter, and grants the contributor the reward for a profile.
///
/// The slots are passed by role: contributor, profile, counter, reward asset,
/// reward authority, the contributor's balance, the host's allocator and the
/// reward sub-ledger. The deposits for the two slots are taken from the
/// host's schedule. A refused creation leaves the store as it was.
pub fn add_spot_surf(
    program_id: &Address,
    store: &mut SlotStore,
    schedule: &DepositSchedule,
    accounts: &Vec<Address>,
    name: String,
    review: String,
    rating: u16,
) -> (created: Result<ProfileCreated, SpotSurfError>)
    ensures
        match created {
            Ok(requests) => {
                &&& add_spot_surf_refusal(
                    old(store)@,
                    *program_id,
                    *schedule,
                    accounts@,
                    name@,
                    review@,
                    rating,
                ) is None
                &&& requests@ == profile_requests(
                    *program_id,
                    *schedule,
                    ProfileAccounts::of(accounts@),
                    expected_profile(*program_id, ProfileAccounts::of(accounts@)),
                )
                &&& final(store)@ == with_profile(
                    old(store)@,
                    *program_id,
                    ProfileAccounts::of(accounts@),
                    name@,
                    review@,
                    rating,
                )
            },
            Err(e) => {
                &&& add_spot_surf_refusal(
                    old(store)@,
                    *program_id,
                    *schedule,
                    accounts@,
                    name@,
                    review@,
                    rating,
                ) == Some(e)
                &&& final(store)@ == old(store)@
            },
        },
{
    let roles = match ProfileAccounts::from_list(accounts) {
        Ok(roles) => roles,
        Err(e) => {
            return Err(e);
        },
    };
    let found = derive_profile(program_id, &roles);
    create_profile(store, program_id, schedule, &roles, &found, name, review, rating)
}

/// After an accepted creation the profile slot holds the new record, written
/// and rated as asked, and the counter slot holds a counter that stands at
/// zero.
pub proof fn created_profile_is_stored(
    store: Map<Address, SlotView>,
    program_id: Address,
    schedule: DepositSchedule,
    accounts: Seq<Address>,
    name: Seq<char>,
    review: Seq<char>,
    rating: u16,
)
    requires
        add_spot_surf_refusal(store, program_id, schedule, accounts, name, review, rating) is None,
    ensures
        ({
            let roles = ProfileAccounts::of(accounts);
            let after = with_profile(store, program_id, roles, name, review, rating);
            &&& slot_data(after, roles.profile) is Some
            &&& SpotSurfInfoView::decoding(after[roles.profile].data) == Some(
                new_profile(name, rating, review),
            )
            &&& after[roles.profile].data.len() == PROFILE_SLOT_LEN
            &&& after[roles.profile].owner == program_id
            &&& slot_data(after, roles.counter) is Some
            &&& CommentCounterView::decoding(after[roles.counter].data) == Some(new_counter())
            &&& after[roles.counter].owner == program_id
            &&& rating_in_range(rating)
            &&& is_derived(roles.profile, profile_seeds(roles.payer), program_id@)
            &&& is_derived(roles.counter, counter_seeds(roles.profile), program_id@)
        }),
{
    let record = new_profile(name, rating, review);
    let blank = zeros(PROFILE_SLOT_LEN as nat);
    let tail = blank.subrange(record.encoding().len() as int, blank.len() as int);
    record.round_trip(tail);
    tag_lengths();
    new_counter().round_trip(Seq::<u8>::empty());
    assert(new_counter().encoding() + Seq::<u8>::empty() =~= new_counter().encoding());
}

/// A creation whose profile slot does not stand at the address derived for
/// the contributor is refused for that address, whatever the payload holds.
pub proof fn underived_profile_is_refused(
    store: Map<Address, SlotView>,
    program_id: Address,
    schedule: DepositSchedule,
    accounts: Seq<Address>,
    name: Seq<char>,
    review: Seq<char>,
    rating: u16,
)
    requires
        accounts.len() >= PROFILE_ROLES,
        !is_derived(accounts[1], profile_seeds(accounts[0]), program_id@),
    ensures
        add_spot_surf_refusal(store, program_id, schedule, accounts, name, review, rating) == Some(
            SpotSurfError::InvalidPDA,
        ),
{
}

/// A creation with a rating outside `1..=5` is refused for its rating,
/// whatever else the payload and the store hold, once the profile slot stands
/// at the address derived for the contributor.
pub proof fn rating_out_of_range_is_refused(
    store: Map<Address, SlotView>,
    program_id: Address,
    schedule: DepositSchedule,
    accounts: Seq<Address>,
    name: Seq<char>,
    review: Seq<char>,
    rating: u16,
)
    requires
        accounts.len() >= PROFILE_ROLES,
        is_derived(accounts[1], profile_seeds(accounts[0]), program_id@),
        !rating_in_range(rating),
    ensures
        add_spot_surf_refusal(store, program_id, schedule, accounts, name, review, rating) == Some(
            SpotSurfError::InvalidRating,
        ),
{
}

/// Once a creation has been accepted, a second creation for the same slots
/// is refused as already initialized, whatever valid payload it brings: a
/// rating in range and a record that fits the slot.
pub proof fn second_creation_is_refused(
    store: Map<Address, SlotView>,
    program_id: Address,
    schedule: DepositSchedule,
    accounts: Seq<Address>,
    name: Seq<char>,
    review: Seq<char>,
    rating: u16,
    second_name: Seq<char>,
    second_review: Seq<char>,
    second_rating: u16,
)
    requires
        add_spot_surf_refusal(store, program_id, schedule, accounts, name, review, rating) is None,
        rating_in_range(second_rating),
        new_profile(second_name, second_rating, second_review).encodable(),
        new_profile(second_name, second_rating, second_review).encoded_len() <= PROFILE_SLOT_LEN,
    ensures
        add_spot_surf_refusal(
            with_profile(store, program_id, ProfileAccounts::of(accounts), name, review, rating),
            program_id,
            schedule,
            accounts,
            second_name,
            second_review,
            second_rating,
        ) == Some(SpotSurfError::AlreadyInitialized),
{
    created_profile_is_stored(store, program_id, schedule, accounts, name, review, rating);
}

} // verus!
