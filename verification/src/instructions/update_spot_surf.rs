//! The operation that gives a profile a new rating and review.

use crate::address::{
    derive_address, derived, is_derived, same_as_derived, spec_same_as_derived, Address,
};
use crate::error::SpotSurfError;
use crate::instructions::add_spot_surf::{
    check_rating, profile_seeds, rating_in_range, seeds_of_profile,
};
use crate::lifecycle::{
    after_write, fresh_profile, read_profile, require_initialized, slot_data, write_profile,
};
use crate::state::{SpotSurfInfo, SpotSurfInfoView};
use crate::store::{zeros, SlotStore, SlotView};
use vstd::prelude::*;

verus! {

/// The number of slot handles that the update of a profile takes.
pub const UPDATE_ROLES: usize = 2;

/// The slots that take part in the update of a profile, by role. They are
/// passed in this order.
#[derive(Clone, Copy, Debug, PartialEq, Eq)]
pub struct UpdateAccounts {
    /// The contributor whose profile it is.
    pub contributor: Address,
    /// The slot of the profile.
    pub profile: Address,
}

impl UpdateAccounts {
    /// The roles that the first two handles of `list` fill.
    pub open spec fn of(list: Seq<Address>) -> UpdateAccounts {
        UpdateAccounts { contributor: list[0], profile: list[1] }
    }

    /// Gives each of the first two handles of `list` its role; fails where
    /// there are fewer.
    pub fn from_list(list: &Vec<Address>) -> (accounts: Result<UpdateAccounts, SpotSurfError>)
        ensures
            accounts == if list@.len() < UPDATE_ROLES {
                Err::<UpdateAccounts, SpotSurfError>(SpotSurfError::NotEnoughAccountKeys)
            } else {
                Ok(UpdateAccounts::of(list@))
            },
    {
        if list.len() < UPDATE_ROLES {
            return Err(SpotSurfError::NotEnoughAccountKeys);
        }
        Ok(UpdateAccounts { contributor: list[0], profile: list[1] })
    }
}

/// The profile record that the slot at `address` holds, if it holds one.
pub open spec fn stored_profile(store: Map<Address, SlotView>, address: Address) -> Option<
    SpotSurfInfoView,
> {
    match slot_data(store, address) {
        None => None,
        Some(data) => SpotSurfInfoView::decoding(data),
    }
}

/// Why the profile at `address` cannot be changed, if it cannot: it has never
/// been written, its record is malformed, or another module owns it.
pub open spec fn profile_refusal(
    store: Map<Address, SlotView>,
    program_id: Address,
    address: Address,
) -> Option<SpotSurfError> {
    match slot_data(store, address) {
        None => Some(SpotSurfError::UninitializedAccount),
        Some(data) => match SpotSurfInfoView::decoding(data) {
            None => Some(SpotSurfError::DecodeError),
            Some(profile) => if !profile.is_init {
                Some(SpotSurfError::UninitializedAccount)
            } else if store[address].owner != program_id {
                Some(SpotSurfError::IllegalOwner)
            } else {
                None
            },
        },
    }
}

/// A profile with a new rating and review; its tag and name stay.
pub open spec fn revised(
    profile: SpotSurfInfoView,
    rating: u16,
    review: Seq<char>,
) -> SpotSurfInfoView {
    SpotSurfInfoView {
        discriminator: profile.discriminator,
        is_init: profile.is_init,
        name: profile.name,
        rate: rating,
        review,
    }
}

/// Why the update of a profile is refused, if it is, given what the host
/// derived for the profile: the first check that fails.
///
/// The profile itself is checked first, then its address, the length of the
/// revised record against the room of the slot, and the rating.
pub open spec fn revise_profile_refusal(
    store: Map<Address, SlotView>,
    program_id: Address,
    accounts: UpdateAccounts,
    found: Option<(Address, u8)>,
    review: Seq<char>,
    rating: u16,
) -> Option<SpotSurfError> {
    if profile_refusal(store, program_id, accounts.profile) is Some {
        profile_refusal(store, program_id, accounts.profile)
    } else if !spec_same_as_derived(&accounts.profile, &found) {
        Some(SpotSurfError::InvalidPDA)
    } else {
        let record = revised(stored_profile(store, accounts.profile)->0, rating, review);
        if !record.encodable() || record.encoded_len() > store[accounts.profile].data.len() {
            Some(SpotSurfError::InvalidDataLength)
        } else if !rating_in_range(rating) {
            Some(SpotSurfError::InvalidRating)
        } else {
            None
        }
    }
}

/// The store after an accepted update: the revised record is written over
/// the start of the profile slot.
pub open spec fn with_revision(
    store: Map<Address, SlotView>,
    accounts: UpdateAccounts,
    review: Seq<char>,
    rating: u16,
) -> Map<Address, SlotView> {
    after_write(
        store,
        accounts.profile,
        revised(stored_profile(store, accounts.profile)->0, rating, review).encoding(),
    )
}

/// Reads the profile at `address` for an update: it must have been written
/// and belong to the module.
pub fn read_live_profile(store: &SlotStore, program_id: &Address, address: &Address) -> (read:
    Result<SpotSurfInfo, SpotSurfError>)
    ensures
        match read {
            Ok(profile) => profile_refusal(store@, *program_id, *address) is None
                && stored_profile(store@, *address) == Some(profile@),
            Err(e) => profile_refusal(store@, *program_id, *address) == Some(e),
        },
{
    let profile = match read_profile(store, address) {
        Ok(Some(profile)) => profile,
        Ok(None) => {
            return Err(SpotSurfError::UninitializedAccount);
        },
        Err(e) => {
            return Err(e);
        },
    };
    match require_initialized(profile.is_initialized()) {
        Ok(_) => {},
        Err(e) => {
            return Err(e);
        },
    }
    match store.owner(address) {
        Some(owner) => {
            if !owner.same(program_id) {
                return Err(SpotSurfError::IllegalOwner);
            }
        },
        None => {
            return Err(SpotSurfError::UninitializedAccount);
        },
    }
    Ok(profile)
}

/// Gives the profile of a contributor a new rating and review, given what
/// the host derived for the profile.
///
/// Every check is made before anything is written: a refused update leaves
/// the store as it was.
pub fn revise_profile(
    store: &mut SlotStore,
    program_id: &Address,
    accounts: &UpdateAccounts,
    found: &Option<(Address, u8)>,
    review: String,
    rating: u16,
) -> (done: Result<(), SpotSurfError>)
    ensures
        match done {
            Ok(_) => {
                &&& revise_profile_refusal(
                    old(store)@,
                    *program_id,
                    *accounts,
                    *found,
                    review@,
                    rating,
                ) is None
                &&& final(store)@ == with_revision(old(store)@, *accounts, review@, rating)
            },
            Err(e) => {
                &&& revise_profile_refusal(
                    old(store)@,
                    *program_id,
                    *accounts,
                    *found,
                    review@,
                    rating,
                ) == Some(e)
                &&& final(store)@ == old(store)@
            },
        },
{
    let profile = match read_live_profile(store, program_id, &accounts.profile) {
        Ok(profile) => profile,
        Err(e) => {
            return Err(e);
        },
    };
    if !same_as_derived(&accounts.profile, found) {
        return Err(SpotSurfError::InvalidPDA);
    }
    let record = SpotSurfInfo {
        discriminator: profile.discriminator,
        is_init: profile.is_init,
        name: profile.name,
        rate: rating,
        review,
    };
    let room = match store.data(&accounts.profile) {
        Some(data) => data.len(),
        None => 0,
    };
    match record.encoded_len() {
        Some(len) => {
            if len > room {
                return Err(SpotSurfError::InvalidDataLength);
            }
        },
        None => {
            return Err(SpotSurfError::InvalidDataLength);
        },
    }
    match check_rating(rating) {
        Ok(_) => {},
        Err(e) => {
            return Err(e);
        },
    }
    write_profile(store, &accounts.profile, &record)
}

/// Why the update of a profile is refused, if it is: too few slot handles, or
/// the first check that fails against what the host derives.
pub open spec fn update_refusal(
    store: Map<Address, SlotView>,
    program_id: Address,
    accounts: Seq<Address>,
    review: Seq<char>,
    rating: u16,
) -> Option<SpotSurfError> {
    if accounts.len() < UPDATE_ROLES {
        Some(SpotSurfError::NotEnoughAccountKeys)
    } else {
        revise_profile_refusal(
            store,
            program_id,
            UpdateAccounts::of(accounts),
            derived(profile_seeds(accounts[0]), program_id@),
            review,
            rating,
        )
    }
}

/// Gives the profile of the contributor `accounts[0]`, which stands at
/// `accounts[1]`, a new rating and review.
///
/// The name that is passed is not written: a profile keeps the name it was
/// created with. A refused update leaves the store as it was.
pub fn update_student_intro(
    program_id: &Address,
    store: &mut SlotStore,
    accounts: &Vec<Address>,
    _name: String,
    review: String,
    rating: u16,
) -> (done: Result<(), SpotSurfError>)
    ensures
        match done {
            Ok(_) => {
                &&& update_refusal(old(store)@, *program_id, accounts@, review@, rating) is None
                &&& final(store)@ == with_revision(
                    old(store)@,
                    UpdateAccounts::of(accounts@),
                    review@,
                    rating,
                )
            },
            Err(e) => {
                &&& update_refusal(old(store)@, *program_id, accounts@, review@, rating) == Some(
                    e,
                )
                &&& final(store)@ == old(store)@
            },
        },
{
    let roles = match UpdateAccounts::from_list(accounts) {
        Ok(roles) => roles,
        Err(e) => {
            return Err(e);
        },
    };
    let found = derive_address(&seeds_of_profile(&roles.contributor), program_id);
    revise_profile(store, program_id, &roles, &found, review, rating)
}

/// The update of a profile that was never created is refused as not
/// initialized, whatever it brings.
pub proof fn update_of_missing_profile_is_refused(
    store: Map<Address, SlotView>,
    program_id: Address,
    accounts: Seq<Address>,
    review: Seq<char>,
    rating: u16,
)
    requires
        accounts.len() >= UPDATE_ROLES,
        !store.dom().contains(accounts[1]),
    ensures
        update_refusal(store, program_id, accounts, review, rating) == Some(
            SpotSurfError::UninitializedAccount,
        ),
{
}

/// The update of a profile whose slot was allocated and never written is
/// refused as not initialized, whatever it brings.
pub proof fn update_of_blank_profile_is_refused(
    store: Map<Address, SlotView>,
    program_id: Address,
    accounts: Seq<Address>,
    review: Seq<char>,
    rating: u16,
)
    requires
        accounts.len() >= UPDATE_ROLES,
        store.dom().contains(accounts[1]),
        store[accounts[1]].data == zeros(store[accounts[1]].data.len()),
        store[accounts[1]].data.len() >= 15,
    ensures
        update_refusal(store, program_id, accounts, review, rating) == Some(
            SpotSurfError::UninitializedAccount,
        ),
{
    fresh_profile(store[accounts[1]].data.len());
}

/// After an accepted update the profile slot holds the record with its new
/// rating and review, under its old tag and name, in a slot of the same
/// length and owner.
pub proof fn revised_profile_is_stored(
    store: Map<Address, SlotView>,
    program_id: Address,
    accounts: Seq<Address>,
    review: Seq<char>,
    rating: u16,
)
    requires
        update_refusal(store, program_id, accounts, review, rating) is None,
    ensures
        ({
            let roles = UpdateAccounts::of(accounts);
            let after = with_revision(store, roles, review, rating);
            &&& stored_profile(after, roles.profile) == Some(
                revised(stored_profile(store, roles.profile)->0, rating, review),
            )
            &&& after[roles.profile].data.len() == store[roles.profile].data.len()
            &&& after[roles.profile].owner == store[roles.profile].owner
            &&& after.dom() == store.dom()
            &&& rating_in_range(rating)
            &&& stored_profile(store, roles.profile)->0.is_init
            &&& is_derived(roles.profile, profile_seeds(roles.contributor), program_id@)
        }),
{
    let roles = UpdateAccounts::of(accounts);
    let record = revised(stored_profile(store, roles.profile)->0, rating, review);
    let data = store[roles.profile].data;
    let tail = data.subrange(record.encoding().len() as int, data.len() as int);
    record.round_trip(tail);
    assert(with_revision(store, roles, review, rating).dom() =~= store.dom());
}

} // verus!
