//! The life of a slot: allocation, the guards against a second creation and
//! against a change of what was never created, and typed reads and writes.

use crate::address::Address;
use crate::error::SpotSurfError;
use crate::host::SlotRequest;
use crate::state::{
    Comment, CommentCounter, CommentCounterView, CommentView, SpotSurfInfo, SpotSurfInfoView,
};
use crate::store::{overwritten, zeros, SlotStore, SlotView};
use vstd::prelude::*;

verus! {

/// The room that the slot of a profile is given, whatever the length of the
/// record, so that a later review fits in place.
pub const PROFILE_SLOT_LEN: usize = 1000;

/// Allocates the slot that `request` asks for.
///
/// The host refuses where a slot stands at the target already.
pub fn create_slot(store: &mut SlotStore, request: &SlotRequest) -> (done: Result<
    (),
    SpotSurfError,
>)
    ensures
        done is Ok <==> !old(store)@.dom().contains(request.target),
        done is Err ==> done == Err::<(), SpotSurfError>(SpotSurfError::SlotCreationFailed)
            && final(store)@ == old(store)@,
        done is Ok ==> final(store)@ == old(store)@.insert(
            request.target,
            SlotView { owner: request.owner, data: zeros(request.byte_length as nat) },
        ),
{
    store.create_slot(request.target, request.owner, request.byte_length)
}

/// Refuses a creation where the record has been written before.
pub fn require_uninitialized(initialized: bool) -> (done: Result<(), SpotSurfError>)
    ensures
        done == if initialized {
            Err::<(), SpotSurfError>(SpotSurfError::AlreadyInitialized)
        } else {
            Ok(())
        },
{
    if initialized {
        Err(SpotSurfError::AlreadyInitialized)
    } else {
        Ok(())
    }
}

/// Refuses a change where the record has never been written.
pub fn require_initialized(initialized: bool) -> (done: Result<(), SpotSurfError>)
    ensures
        done == if initialized {
            Ok::<(), SpotSurfError>(())
        } else {
            Err(SpotSurfError::UninitializedAccount)
        },
{
    if initialized {
        Ok(())
    } else {
        Err(SpotSurfError::UninitializedAccount)
    }
}

/// The bytes of the slot at `address`, if a slot stands there.
pub open spec fn slot_data(store: Map<Address, SlotView>, address: Address) -> Option<Seq<u8>> {
    if store.dom().contains(address) {
        Some(store[address].data)
    } else {
        None
    }
}

/// The store after `bytes` were written over the start of the slot at
/// `address`.
pub open spec fn after_write(
    store: Map<Address, SlotView>,
    address: Address,
    bytes: Seq<u8>,
) -> Map<Address, SlotView> {
    store.insert(
        address,
        SlotView { owner: store[address].owner, data: overwritten(store[address].data, bytes) },
    )
}

/// Whether `bytes` can be written to the slot at `address`: the slot is there
/// and is long enough.
pub open spec fn has_room(store: Map<Address, SlotView>, address: Address, len: nat) -> bool {
    store.dom().contains(address) && len <= store[address].data.len()
}

/// Reads the profile record of the slot at `address`; `None` where no slot
/// stands there.
pub fn read_profile(store: &SlotStore, address: &Address) -> (read: Result<
    Option<SpotSurfInfo>,
    SpotSurfError,
>)
    ensures
        match slot_data(store@, *address) {
            None => read matches Ok(None),
            Some(data) => match SpotSurfInfoView::decoding(data) {
                None => read matches Err(SpotSurfError::DecodeError),
                Some(record) => read matches Ok(Some(r)) && r@ == record,
            },
        },
{
    match store.data(address) {
        None => Ok(None),
        Some(data) => match SpotSurfInfo::decode(data.as_slice()) {
            Ok(record) => Ok(Some(record)),
            Err(e) => Err(e),
        },
    }
}

/// Reads the counter record of the slot at `address`; `None` where no slot
/// stands there.
pub fn read_counter(store: &SlotStore, address: &Address) -> (read: Result<
    Option<CommentCounter>,
    SpotSurfError,
>)
    ensures
        match slot_data(store@, *address) {
            None => read matches Ok(None),
            Some(data) => match CommentCounterView::decoding(data) {
                None => read matches Err(SpotSurfError::DecodeError),
                Some(record) => read matches Ok(Some(r)) && r@ == record,
            },
        },
{
    match store.data(address) {
        None => Ok(None),
        Some(data) => match CommentCounter::decode(data.as_slice()) {
            Ok(record) => Ok(Some(record)),
            Err(e) => Err(e),
        },
    }
}

/// Reads the comment record of the slot at `address`; `None` where no slot
/// stands there.
pub fn read_comment(store: &SlotStore, address: &Address) -> (read: Result<
    Option<Comment>,
    SpotSurfError,
>)
    ensures
        match slot_data(store@, *address) {
            None => read matches Ok(None),
            Some(data) => match CommentView::decoding(data) {
                None => read matches Err(SpotSurfError::DecodeError),
                Some(record) => read matches Ok(Some(r)) && r@ == record,
            },
        },
{
    match store.data(address) {
        None => Ok(None),
        Some(data) => match Comment::decode(data.as_slice()) {
            Ok(record) => Ok(Some(record)),
            Err(e) => Err(e),
        },
    }
}

/// Why no profile can be created at `address`, if none can: a slot stands
/// there already. Its record is malformed, or written before, or the host
/// would refuse to allocate the slot a second time.
pub open spec fn profile_vacancy(store: Map<Address, SlotView>, address: Address) -> Option<
    SpotSurfError,
> {
    match slot_data(store, address) {
        None => None,
        Some(data) => match SpotSurfInfoView::decoding(data) {
            None => Some(SpotSurfError::DecodeError),
            Some(record) => if record.is_init {
                Some(SpotSurfError::AlreadyInitialized)
            } else {
                Some(SpotSurfError::SlotCreationFailed)
            },
        },
    }
}

/// Why no counter can be created at `address`, if none can.
pub open spec fn counter_vacancy(store: Map<Address, SlotView>, address: Address) -> Option<
    SpotSurfError,
> {
    match slot_data(store, address) {
        None => None,
        Some(data) => match CommentCounterView::decoding(data) {
            None => Some(SpotSurfError::DecodeError),
            Some(record) => if record.is_init {
                Some(SpotSurfError::AlreadyInitialized)
            } else {
                Some(SpotSurfError::SlotCreationFailed)
            },
        },
    }
}

/// Why no comment can be created at `address`, if none can.
pub open spec fn comment_vacancy(store: Map<Address, SlotView>, address: Address) -> Option<
    SpotSurfError,
> {
    match slot_data(store, address) {
        None => None,
        Some(data) => match CommentView::decoding(data) {
            None => Some(SpotSurfError::DecodeError),
            Some(record) => if record.is_init {
                Some(SpotSurfError::AlreadyInitialized)
            } else {
                Some(SpotSurfError::SlotCreationFailed)
            },
        },
    }
}

/// Tests that a profile can be created at `address`.
pub fn check_profile_vacant(store: &SlotStore, address: &Address) -> (done: Result<
    (),
    SpotSurfError,
>)
    ensures
        match done {
            Ok(_) => profile_vacancy(store@, *address) is None,
            Err(e) => profile_vacancy(store@, *address) == Some(e),
        },
{
    match read_profile(store, address) {
        Ok(None) => Ok(()),
        Ok(Some(record)) => match require_uninitialized(record.is_initialized()) {
            Ok(_) => Err(SpotSurfError::SlotCreationFailed),
            Err(e) => Err(e),
        },
        Err(e) => Err(e),
    }
}

/// Tests that a counter can be created at `address`.
pub fn check_counter_vacant(store: &SlotStore, address: &Address) -> (done: Result<
    (),
    SpotSurfError,
>)
    ensures
        match done {
            Ok(_) => counter_vacancy(store@, *address) is None,
            Err(e) => counter_vacancy(store@, *address) == Some(e),
        },
{
    match read_counter(store, address) {
        Ok(None) => Ok(()),
        Ok(Some(record)) => match require_uninitialized(record.is_initialized()) {
            Ok(_) => Err(SpotSurfError::SlotCreationFailed),
            Err(e) => Err(e),
        },
        Err(e) => Err(e),
    }
}

/// Tests that a comment can be created at `address`.
pub fn check_comment_vacant(store: &SlotStore, address: &Address) -> (done: Result<
    (),
    SpotSurfError,
>)
    ensures
        match done {
            Ok(_) => comment_vacancy(store@, *address) is None,
            Err(e) => comment_vacancy(store@, *address) == Some(e),
        },
{
    match read_comment(store, address) {
        Ok(None) => Ok(()),
        Ok(Some(record)) => match require_uninitialized(record.is_initialized()) {
            Ok(_) => Err(SpotSurfError::SlotCreationFailed),
            Err(e) => Err(e),
        },
        Err(e) => Err(e),
    }
}

/// Writes a profile record over the start of the slot at `address`.
///
/// Fails, and writes nothing, where the record cannot be encoded or is longer
/// than the slot.
pub fn write_profile(store: &mut SlotStore, address: &Address, record: &SpotSurfInfo) -> (done:
    Result<(), SpotSurfError>)
    ensures
        done is Ok <==> record@.encodable() && has_room(
            old(store)@,
            *address,
            record@.encoded_len(),
        ),
        done is Err ==> done == Err::<(), SpotSurfError>(SpotSurfError::CapacityExceeded)
            && final(store)@ == old(store)@,
        done is Ok ==> final(store)@ == after_write(old(store)@, *address, record@.encoding()),
{
    match record.encode() {
        Some(bytes) => store.write(address, bytes.as_slice()),
        None => Err(SpotSurfError::CapacityExceeded),
    }
}

/// Writes a counter record over the start of the slot at `address`.
///
/// Fails, and writes nothing, where the record cannot be encoded or is longer
/// than the slot.
pub fn write_counter(store: &mut SlotStore, address: &Address, record: &CommentCounter) -> (done:
    Result<(), SpotSurfError>)
    ensures
        done is Ok <==> record@.encodable() && has_room(
            old(store)@,
            *address,
            record@.encoded_len(),
        ),
        done is Err ==> done == Err::<(), SpotSurfError>(SpotSurfError::CapacityExceeded)
            && final(store)@ == old(store)@,
        done is Ok ==> final(store)@ == after_write(old(store)@, *address, record@.encoding()),
{
    match record.encode() {
        Some(bytes) => store.write(address, bytes.as_slice()),
        None => Err(SpotSurfError::CapacityExceeded),
    }
}

/// Writes a comment record over the start of the slot at `address`.
///
/// Fails, and writes nothing, where the record cannot be encoded or is longer
/// than the slot.
pub fn write_comment(store: &mut SlotStore, address: &Address, record: &Comment) -> (done: Result<
    (),
    SpotSurfError,
>)
    ensures
        done is Ok <==> record@.encodable() && has_room(
            old(store)@,
            *address,
            record@.encoded_len(),
        ),
        done is Err ==> done == Err::<(), SpotSurfError>(SpotSurfError::CapacityExceeded)
            && final(store)@ == old(store)@,
        done is Ok ==> final(store)@ == after_write(old(store)@, *address, record@.encoding()),
{
    match record.encode() {
        Some(bytes) => store.write(address, bytes.as_slice()),
        None => Err(SpotSurfError::CapacityExceeded),
    }
}

/// A slot that was just allocated holds a profile that has not been written.
pub proof fn fresh_profile(len: nat)
    requires
        len >= 15,
    ensures
        SpotSurfInfoView::decoding(zeros(len)) == Some(
            SpotSurfInfoView {
                discriminator: Seq::<char>::empty(),
                is_init: false,
                name: Seq::<char>::empty(),
                rate: 0,
                review: Seq::<char>::empty(),
            },
        ),
{
    let blank = SpotSurfInfoView {
        discriminator: Seq::<char>::empty(),
        is_init: false,
        name: Seq::<char>::empty(),
        rate: 0,
        review: Seq::<char>::empty(),
    };
    reveal(crate::codec::text_bytes);
    assert(vstd::utf8::encode_utf8(Seq::<char>::empty()) =~= Seq::<u8>::empty());
    assert(blank.encoding() =~= zeros(15));
    blank.round_trip(zeros((len - 15) as nat));
    assert(blank.encoding() + zeros((len - 15) as nat) =~= zeros(len));
}

} // verus!
