//! The operation that adds a comment under a profile.

use crate::address::{
    derive_address, derived, is_derived, nonce_in, same_as_derived, seeds_of,
    spec_same_as_derived, Address,
};
use crate::deposit::{deposit_for, deposit_or_zero, minimum_deposit, DepositSchedule};
use crate::error::SpotSurfError;
use crate::host::{
    signer_seeds, with_nonce, RewardGrant, RewardGrantView, SlotRequest, SlotRequestView,
};
use crate::instructions::add_spot_surf::{counter_seeds, seeds_of_counter};
use crate::lifecycle::{
    after_write, check_comment_vacant, comment_vacancy, create_slot, read_counter,
    require_initialized, slot_data, write_comment, write_counter,
};
use crate::reward::{
    check_reward, derive_reward, expected_reward, reward_grant, reward_refusal, RewardAccounts,
    RewardDerivation, COMMENT_REWARD,
};
use crate::sequencer::{advanced, next_identity};
use crate::state::{
    comment_tag, tag_lengths, Comment, CommentCounter, CommentCounterView, CommentView,
};
use crate::store::{overwritten, zeros, SlotStore, SlotView};
use vstd::prelude::*;

verus! {

/// The number of slot handles that a comment takes.
pub const COMMENT_ROLES: usize = 9;

/// The slots that take part in a comment, by role. They are passed in this
/// order.
#[derive(Clone, Copy, Debug, PartialEq, Eq)]
pub struct CommentAccounts {
    /// The contributor who comments, and pays for the slot.
    pub payer: Address,
    /// The slot of the profile that is commented on.
    pub profile: Address,
    /// The slot of the comment counter of that profile.
    pub counter: Address,
    /// The slot of the new comment.
    pub comment: Address,
    /// The reward asset.
    pub reward_module: Address,
    /// The authority that may issue the asset.
    pub authority: Address,
    /// The balance of the contributor in the asset.
    pub balance: Address,
    /// The host module that allocates slots.
    pub system_module: Address,
    /// The reward sub-ledger.
    pub ledger_module: Address,
}

impl CommentAccounts {
    /// The roles that the first nine handles of `list` fill.
    pub open spec fn of(list: Seq<Address>) -> CommentAccounts {
        CommentAccounts {
            payer: list[0],
            profile: list[1],
            counter: list[2],
            comment: list[3],
            reward_module: list[4],
            authority: list[5],
            balance: list[6],
            system_module: list[7],
            ledger_module: list[8],
        }
    }

    /// Gives each of the first nine handles of `list` its role; fails where
    /// there are fewer.
    pub fn from_list(list: &Vec<Address>) -> (accounts: Result<CommentAccounts, SpotSurfError>)
        ensures
            accounts == if list@.len() < COMMENT_ROLES {
                Err::<CommentAccounts, SpotSurfError>(SpotSurfError::NotEnoughAccountKeys)
            } else {
                Ok(CommentAccounts::of(list@))
            },
    {
        if list.len() < COMMENT_ROLES {
            return Err(SpotSurfError::NotEnoughAccountKeys);
        }
        Ok(
            CommentAccounts {
                payer: list[0],
                profile: list[1],
                counter: list[2],
                comment: list[3],
                reward_module: list[4],
                authority: list[5],
                balance: list[6],
                system_module: list[7],
                ledger_module: list[8],
            },
        )
    }

    /// The roles of the reward for the comment.
    pub open spec fn spec_reward(self) -> RewardAccounts {
        RewardAccounts {
            contributor: self.payer,
            reward_module: self.reward_module,
            authority: self.authority,
            balance: self.balance,
            ledger_module: self.ledger_module,
        }
    }

    /// The roles of the reward for the comment.
    #[verifier::when_used_as_spec(spec_reward)]
    pub fn reward(self) -> (roles: RewardAccounts)
        ensures
            roles == self.spec_reward(),
    {
        RewardAccounts {
            contributor: self.payer,
            reward_module: self.reward_module,
            authority: self.authority,
            balance: self.balance,
            ledger_module: self.ledger_module,
        }
    }
}

/// What the host derives for the roles of a comment.
#[derive(Clone, Copy, Debug, PartialEq, Eq)]
pub struct CommentDerivation {
    /// The address of the counter, derived from the profile.
    pub counter: Option<(Address, u8)>,
    /// The address of the comment, derived from the profile and the count.
    pub comment: Option<(Address, u8)>,
    /// The addresses of the reward.
    pub reward: RewardDerivation,
}

/// What an accepted comment asks of the host: a slot and a reward. The
/// identity is the number of the comment under its profile.
#[derive(Clone, Debug, PartialEq, Eq)]
pub struct CommentAdded {
    pub identity: u8,
    pub comment: SlotRequest,
    pub reward: RewardGrant,
}

/// The requests of an accepted comment as mathematical values.
pub struct CommentAddedView {
    pub identity: u8,
    pub comment: SlotRequestView,
    pub reward: RewardGrantView,
}

impl View for CommentAdded {
    type V = CommentAddedView;

    open spec fn view(&self) -> CommentAddedView {
        CommentAddedView {
            identity: self.identity,
            comment: self.comment@,
            reward: self.reward@,
        }
    }
}

/// The seeds of the comment with the given identity under `profile`.
pub open spec fn comment_seeds(profile: Address, identity: u8) -> Seq<Seq<u8>> {
    seq![profile@, seq![identity]]
}

/// The record that a comment writes.
pub open spec fn new_comment(profile: Address, text: Seq<char>) -> CommentView {
    CommentView { discriminator: comment_tag(), is_init: true, spot_info: profile, comment: text }
}

/// The counter record that the slot at `address` holds, if it holds one.
pub open spec fn stored_counter(store: Map<Address, SlotView>, address: Address) -> Option<
    CommentCounterView,
> {
    match slot_data(store, address) {
        None => None,
        Some(data) => CommentCounterView::decoding(data),
    }
}

/// The count of the counter at `address`; arbitrary where none is stored.
pub open spec fn stored_count(store: Map<Address, SlotView>, address: Address) -> u8 {
    match stored_counter(store, address) {
        Some(counter) => counter.counter,
        None => 0,
    }
}

/// Why the counter at `address` cannot be advanced, if it cannot: it has
/// never been written, its record is malformed, or another module owns it.
pub open spec fn counter_refusal(
    store: Map<Address, SlotView>,
    program_id: Address,
    address: Address,
) -> Option<SpotSurfError> {
    match slot_data(store, address) {
        None => Some(SpotSurfError::UninitializedAccount),
        Some(data) => match CommentCounterView::decoding(data) {
            None => Some(SpotSurfError::DecodeError),
            Some(counter) => if !counter.is_init {
                Some(SpotSurfError::UninitializedAccount)
            } else if store[address].owner != program_id {
                Some(SpotSurfError::IllegalOwner)
            } else {
                None
            },
        },
    }
}

/// Why a comment is refused, if it is, given what the host derived for its
/// roles: the first check that fails.
///
/// The address of the counter is checked first, then the counter itself, the
/// address of the comment, the count, the length of the text and the roles of
/// the reward; last, that the slot of the comment is not there yet and that
/// the host's schedule has a deposit for it.
pub open spec fn append_comment_refusal(
    store: Map<Address, SlotView>,
    program_id: Address,
    schedule: DepositSchedule,
    accounts: CommentAccounts,
    found: CommentDerivation,
    text: Seq<char>,
) -> Option<SpotSurfError> {
    if !spec_same_as_derived(&accounts.counter, &found.counter) {
        Some(SpotSurfError::InvalidPDA)
    } else if counter_refusal(store, program_id, accounts.counter) is Some {
        counter_refusal(store, program_id, accounts.counter)
    } else if !spec_same_as_derived(&accounts.comment, &found.comment) {
        Some(SpotSurfError::InvalidPDA)
    } else if stored_count(store, accounts.counter) == 255 {
        Some(SpotSurfError::CounterOverflow)
    } else if !new_comment(accounts.profile, text).encodable() || new_comment(
        accounts.profile,
        text,
    ).encoded_len() > usize::MAX {
        Some(SpotSurfError::InvalidDataLength)
    } else if reward_refusal(accounts.reward(), found.reward) is Some {
        reward_refusal(accounts.reward(), found.reward)
    } else if comment_vacancy(store, accounts.comment) is Some {
        comment_vacancy(store, accounts.comment)
    } else if deposit_for(
        schedule,
        new_comment(accounts.profile, text).encoded_len() as usize,
    ) is None {
        Some(SpotSurfError::SlotCreationFailed)
    } else {
        None
    }
}

/// The store after an accepted comment: a new slot that holds exactly the
/// record of the comment, and the counter advanced by one.
pub open spec fn with_comment(
    store: Map<Address, SlotView>,
    program_id: Address,
    accounts: CommentAccounts,
    text: Seq<char>,
) -> Map<Address, SlotView> {
    after_write(
        store.insert(
            accounts.comment,
            SlotView { owner: program_id, data: new_comment(accounts.profile, text).encoding() },
        ),
        accounts.counter,
        advanced(stored_counter(store, accounts.counter)->0).encoding(),
    )
}

/// What an accepted comment asks of the host.
pub open spec fn comment_requests(
    store: Map<Address, SlotView>,
    program_id: Address,
    schedule: DepositSchedule,
    accounts: CommentAccounts,
    found: CommentDerivation,
    text: Seq<char>,
) -> CommentAddedView {
    CommentAddedView {
        identity: stored_count(store, accounts.counter),
        comment: SlotRequestView {
            payer: accounts.payer,
            target: accounts.comment,
            owner: program_id,
            deposit: deposit_or_zero(
                schedule,
                new_comment(accounts.profile, text).encoded_len() as usize,
            ),
            byte_length: new_comment(accounts.profile, text).encoded_len() as usize,
            seeds: signer_seeds(
                comment_seeds(accounts.profile, stored_count(store, accounts.counter)),
                nonce_in(found.comment),
            ),
        },
        reward: reward_grant(accounts.reward(), nonce_in(found.reward.authority), COMMENT_REWARD),
    }
}

/// The seeds of the comment with the given identity under `profile`.
pub fn seeds_of_comment(profile: &Address, identity: u8) -> (seeds: Vec<Vec<u8>>)
    ensures
        seeds_of(seeds@) == comment_seeds(*profile, identity),
{
    let mut seeds: Vec<Vec<u8>> = Vec::new();
    seeds.push(profile.to_vec());
    let mut last: Vec<u8> = Vec::new();
    last.push(identity);
    assert(last@ =~= seq![identity]);
    seeds.push(last);
    assert(seeds_of(seeds@) =~= comment_seeds(*profile, identity));
    seeds
}

/// Reads the counter at `address` for a comment: it must have been written
/// and belong to the module.
pub fn read_live_counter(store: &SlotStore, program_id: &Address, address: &Address) -> (read:
    Result<CommentCounter, SpotSurfError>)
    ensures
        match read {
            Ok(counter) => counter_refusal(store@, *program_id, *address) is None
                && stored_counter(store@, *address) == Some(counter@),
            Err(e) => counter_refusal(store@, *program_id, *address) == Some(e),
        },
{
    let counter = match read_counter(store, address) {
        Ok(Some(counter)) => counter,
        Ok(None) => {
            return Err(SpotSurfError::UninitializedAccount);
        },
        Err(e) => {
            return Err(e);
        },
    };
    match require_initialized(counter.is_initialized()) {
        Ok(_) => {},
        Err(e) => {
            return Err(e);
        },
    }
    match store.owner(address) {
        Some(owner) => {
            if !owner.same(program_id) {
                return Err(SpotSurfError::IllegalOwner);
            }
        },
        None => {
            return Err(SpotSurfError::UninitializedAccount);
        },
    }
    Ok(counter)
}

/// Adds a comment under a profile, advances the counter of the profile and
/// grants the reward for a comment, given what the host derived for the
/// roles.
///
/// Every check is made before anything is written, and the counter is
/// written last: a refused comment leaves the store as it was.
pub fn append_comment(
    store: &mut SlotStore,
    program_id: &Address,
    schedule: &DepositSchedule,
    accounts: &CommentAccounts,
    found: &CommentDerivation,
    text: String,
) -> (added: Result<CommentAdded, SpotSurfError>)
    ensures
        match added {
            Ok(requests) => {
                &&& append_comment_refusal(
                    old(store)@,
                    *program_id,
                    *schedule,
                    *accounts,
                    *found,
                    text@,
                ) is None
                &&& requests@ == comment_requests(
                    old(store)@,
                    *program_id,
                    *schedule,
                    *accounts,
                    *found,
                    text@,
                )
                &&& final(store)@ == with_comment(old(store)@, *program_id, *accounts, text@)
            },
            Err(e) => {
                &&& append_comment_refusal(
                    old(store)@,
                    *program_id,
                    *schedule,
                    *accounts,
                    *found,
                    text@,
                ) == Some(e)
                &&& final(store)@ == old(store)@
            },
        },
{
    if !same_as_derived(&accounts.counter, &found.counter) {
        return Err(SpotSurfError::InvalidPDA);
    }
    let counter = match read_live_counter(store, program_id, &accounts.counter) {
        Ok(counter) => counter,
        Err(e) => {
            return Err(e);
        },
    };
    let comment_nonce = match found.comment {
        Some((address, nonce)) => {
            if !address.same(&accounts.comment) {
                return Err(SpotSurfError::InvalidPDA);
            }
            nonce
        },
        None => {
            return Err(SpotSurfError::InvalidPDA);
        },
    };
    let (identity, updated) = match next_identity(&counter) {
        Ok(next) => next,
        Err(e) => {
            return Err(e);
        },
    };
    let record = Comment {
        discriminator: "reply".to_owned(),
        is_init: true,
        spot_info: accounts.profile,
        comment: text,
    };
    proof {
        tag_lengths();
    }
    let byte_length = match record.encoded_len() {
        Some(len) => len,
        None => {
            return Err(SpotSurfError::InvalidDataLength);
        },
    };
    let reward = match check_reward(&accounts.reward(), &found.reward, COMMENT_REWARD) {
        Ok(grant) => grant,
        Err(e) => {
            return Err(e);
        },
    };
    match check_comment_vacant(store, &accounts.comment) {
        Ok(_) => {},
        Err(e) => {
            return Err(e);
        },
    }
    let deposit = match minimum_deposit(schedule, byte_length) {
        Some(deposit) => deposit,
        None => {
            return Err(SpotSurfError::SlotCreationFailed);
        },
    };
    let comment = SlotRequest {
        payer: accounts.payer,
        target: accounts.comment,
        owner: *program_id,
        deposit,
        byte_length,
        seeds: with_nonce(seeds_of_comment(&accounts.profile, identity), comment_nonce),
    };
    proof {
        CommentCounterView::read_is_written(old(store)@[accounts.counter].data);
        record@.round_trip(Seq::<u8>::empty());
    }
    // Every check has passed: the address of the comment is free, and the
    // counter is rewritten in the room it was read from, so none of the
    // three steps below is refused. The counter is written last.
    match create_slot(store, &comment) {
        Ok(_) => {},
        Err(e) => {
            return Err(e);
        },
    }
    match write_comment(store, &accounts.comment, &record) {
        Ok(_) => {},
        Err(e) => {
            return Err(e);
        },
    }
    match write_counter(store, &accounts.counter, &updated) {
        Ok(_) => {},
        Err(e) => {
            return Err(e);
        },
    }
    proof {
        let enc = new_comment(accounts.profile, record.comment@).encoding();
        assert(overwritten(zeros(enc.len()), enc) =~= enc);
        assert(store@ =~= with_comment(old(store)@, *program_id, *accounts, record.comment@));
    }
    Ok(CommentAdded { identity, comment, reward })
}

/// What the host derives for the roles of a comment under the module
/// `program_id`, the comment being numbered by the counter that the store
/// holds.
pub open spec fn expected_comment(
    store: Map<Address, SlotView>,
    program_id: Address,
    accounts: CommentAccounts,
) -> CommentDerivation {
    CommentDerivation {
        counter: derived(counter_seeds(accounts.profile), program_id@),
        comment: match stored_counter(store, accounts.counter) {
            Some(counter) => derived(
                comment_seeds(accounts.profile, counter.counter),
                program_id@,
            ),
            None => None,
        },
        reward: expected_reward(program_id, accounts.payer, accounts.reward_module),
    }
}

/// Derives the addresses that the roles of a comment must have.
pub fn derive_comment(
    store: &SlotStore,
    program_id: &Address,
    accounts: &CommentAccounts,
) -> (found: CommentDerivation)
    ensures
        found == expected_comment(store@, *program_id, *accounts),
{
    let comment = match read_counter(store, &accounts.counter) {
        Ok(Some(counter)) => derive_address(
            &seeds_of_comment(&accounts.profile, counter.counter),
            program_id,
        ),
        _ => None,
    };
    CommentDerivation {
        counter: derive_address(&seeds_of_counter(&accounts.profile), program_id),
        comment,
        reward: derive_reward(program_id, &accounts.payer, &accounts.reward_module),
    }
}

/// Why a comment is refused, if it is: too few slot handles, or the first
/// check that fails against what the host derives.
pub open spec fn add_comment_refusal(
    store: Map<Address, SlotView>,
    program_id: Address,
    schedule: DepositSchedule,
    accounts: Seq<Address>,
    text: Seq<char>,
) -> Option<SpotSurfError> {
    if accounts.len() < COMMENT_ROLES {
        Some(SpotSurfError::NotEnoughAccountKeys)
    } else {
        append_comment_refusal(
            store,
            program_id,
            schedule,
            CommentAccounts::of(accounts),
            expected_comment(store, program_id, CommentAccounts::of(accounts)),
            text,
        )
    }
}

/// Adds a comment of the contributor `accounts[0]` under the profile
/// `accounts[1]`, and grants the contributor the reward for a comment.
///
/// The slots are passed by role: contributor, profile, counter, comment,
/// reward asset, reward authority, the contributor's balance, the host's
/// allocator and the reward sub-ledger. The comment takes the present count
/// of the profile as its identity, and the count goes up by one. The deposit
/// for the slot is taken from the host's schedule. A refused comment leaves
/// the store as it was.
pub fn add_comment(
    program_id: &Address,
    store: &mut SlotStore,
    schedule: &DepositSchedule,
    accounts: &Vec<Address>,
    comment: String,
) -> (added: Result<CommentAdded, SpotSurfError>)
    ensures
        match added {
            Ok(requests) => {
                &&& add_comment_refusal(old(store)@, *program_id, *schedule, accounts@, comment@)
                    is None
                &&& requests@ == comment_requests(
                    old(store)@,
                    *program_id,
                    *schedule,
                    CommentAccounts::of(accounts@),
                    expected_comment(old(store)@, *program_id, CommentAccounts::of(accounts@)),
                    comment@,
                )
                &&& final(store)@ == with_comment(
                    old(store)@,
                    *program_id,
                    CommentAccounts::of(accounts@),
                    comment@,
                )
            },
            Err(e) => {
                &&& add_comment_refusal(old(store)@, *program_id, *schedule, accounts@, comment@)
                    == Some(e)
                &&& final(store)@ == old(store)@
            },
        },
{
    let roles = match CommentAccounts::from_list(accounts) {
        Ok(roles) => roles,
        Err(e) => {
            return Err(e);
        },
    };
    let found = derive_comment(store, program_id, &roles);
    append_comment(store, program_id, schedule, &roles, &found, comment)
}

/// After an accepted comment the new slot holds the record of the comment,
/// and the counter stands one higher than the identity the comment was
/// given.
pub proof fn added_comment_is_stored(
    store: Map<Address, SlotView>,
    program_id: Address,
    schedule: DepositSchedule,
    accounts: Seq<Address>,
    text: Seq<char>,
)
    requires
        add_comment_refusal(store, program_id, schedule, accounts, text) is None,
    ensures
        ({
            let roles = CommentAccounts::of(accounts);
            let after = with_comment(store, program_id, roles, text);
            &&& slot_data(after, roles.comment) is Some
            &&& CommentView::decoding(after[roles.comment].data) == Some(
                new_comment(roles.profile, text),
            )
            &&& after[roles.comment].owner == program_id
            &&& is_derived(
                roles.comment,
                comment_seeds(roles.profile, stored_count(store, roles.counter)),
                program_id@,
            )
            &&& stored_counter(after, roles.counter) == Some(
                advanced(stored_counter(store, roles.counter)->0),
            )
            &&& stored_count(after, roles.counter) == stored_count(store, roles.counter) + 1
            &&& after[roles.counter].owner == program_id
        }),
{
    let roles = CommentAccounts::of(accounts);
    let record = new_comment(roles.profile, text);
    tag_lengths();
    record.round_trip(Seq::<u8>::empty());
    assert(record.encoding() + Seq::<u8>::empty() =~= record.encoding());
    let data = store[roles.counter].data;
    let counter = advanced(stored_counter(store, roles.counter)->0);
    CommentCounterView::read_is_written(data);
    counter.round_trip(data.subrange(counter.encoding().len() as int, data.len() as int));
}

/// A run of accepted comments under one profile: each store but the first is
/// what the comment before it left.
pub open spec fn accepted_comments(
    stores: Seq<Map<Address, SlotView>>,
    program_id: Address,
    schedule: DepositSchedule,
    profile: Address,
    counter: Address,
    accounts: Seq<Seq<Address>>,
    texts: Seq<Seq<char>>,
) -> bool {
    &&& accounts.len() == texts.len()
    &&& stores.len() == texts.len() + 1
    &&& forall|i: int|
        #![trigger stores[i]]
        0 <= i < texts.len() ==> {
            &&& accounts[i].len() >= COMMENT_ROLES
            &&& accounts[i][1] == profile
            &&& accounts[i][2] == counter
            &&& add_comment_refusal(stores[i], program_id, schedule, accounts[i], texts[i])
                is None
            &&& stores[i + 1] == with_comment(
                stores[i],
                program_id,
                CommentAccounts::of(accounts[i]),
                texts[i],
            )
        }
}

/// The comments that are accepted under a profile are numbered from zero
/// upwards without gap or repeat: from a counter that stands at zero, the
/// count before the comment number `k` is `k`, which is the identity that
/// comment is given, and the count after `k` comments is `k`.
pub proof fn comment_identities_count_up(
    stores: Seq<Map<Address, SlotView>>,
    program_id: Address,
    schedule: DepositSchedule,
    profile: Address,
    counter: Address,
    accounts: Seq<Seq<Address>>,
    texts: Seq<Seq<char>>,
    k: int,
)
    requires
        accepted_comments(stores, program_id, schedule, profile, counter, accounts, texts),
        stored_counter(stores[0], counter) is Some,
        stored_count(stores[0], counter) == 0,
        0 <= k <= texts.len(),
    ensures
        stored_counter(stores[k], counter) is Some,
        stored_count(stores[k], counter) == k,
        k < texts.len() ==> comment_requests(
            stores[k],
            program_id,
            schedule,
            CommentAccounts::of(accounts[k]),
            expected_comment(stores[k], program_id, CommentAccounts::of(accounts[k])),
            texts[k],
        ).identity == k,
    decreases k,
{
    if k > 0 {
        comment_identities_count_up(
            stores,
            program_id,
            schedule,
            profile,
            counter,
            accounts,
            texts,
            k - 1,
        );
        let before = stores[k - 1];
        assert(stores[k] == with_comment(
            before,
            program_id,
            CommentAccounts::of(accounts[k - 1]),
            texts[k - 1],
        ));
        added_comment_is_stored(before, program_id, schedule, accounts[k - 1], texts[k - 1]);
    }
}

/// No more than 255 comments are accepted under one profile.
pub proof fn comments_are_bounded(
    stores: Seq<Map<Address, SlotView>>,
    program_id: Address,
    schedule: DepositSchedule,
    profile: Address,
    counter: Address,
    accounts: Seq<Seq<Address>>,
    texts: Seq<Seq<char>>,
)
    requires
        accepted_comments(stores, program_id, schedule, profile, counter, accounts, texts),
        stored_counter(stores[0], counter) is Some,
        stored_count(stores[0], counter) == 0,
    ensures
        texts.len() <= 255,
{
    if texts.len() > 255 {
        comment_identities_count_up(
            stores,
            program_id,
            schedule,
            profile,
            counter,
            accounts,
            texts,
            255,
        );
        let full = stores[255];
        assert(add_comment_refusal(full, program_id, schedule, accounts[255], texts[255]) is None);
    }
}

} // verus!
