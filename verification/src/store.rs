//! The slots that operations work on, keyed by address.

use crate::address::Address;
use crate::error::SpotSurfError;
use vstd::prelude::*;

verus! {

/// What a slot holds, as a mathematical value: the module that may change it
/// and its bytes.
pub struct SlotView {
    pub owner: Address,
    pub data: Seq<u8>,
}

/// `len` bytes that are all zero: what a slot holds when it has just been
/// allocated.
pub open spec fn zeros(len: nat) -> Seq<u8> {
    Seq::new(len, |i: int| 0u8)
}

/// `old_data` with its first bytes replaced by `bytes`.
pub open spec fn overwritten(old_data: Seq<u8>, bytes: Seq<u8>) -> Seq<u8> {
    bytes + old_data.subrange(bytes.len() as int, old_data.len() as int)
}

struct Entry {
    address: Address,
    owner: Address,
    data: Vec<u8>,
}

impl Entry {
    spec fn content(self) -> SlotView {
        SlotView { owner: self.owner, data: self.data@ }
    }
}

/// The storage slots that an operation works on, keyed by address.
///
/// No address is held twice. The store is handed to every operation; nothing
/// else carries state from one call to the next.
pub struct SlotStore {
    entries: Vec<Entry>,
}

impl View for SlotStore {
    type V = Map<Address, SlotView>;

    closed spec fn view(&self) -> Map<Address, SlotView> {
        Map::new(
            |address: Address| self.holds(address),
            |address: Address| self.entries[self.place(address)].content(),
        )
    }
}

impl SlotStore {
    #[verifier::type_invariant]
    spec fn distinct(self) -> bool {
        forall|i: int, j: int|
            0 <= i < j < self.entries.len() ==> self.entries[i].address != self.entries[j].address
    }

    spec fn holds(self, address: Address) -> bool {
        exists|i: int| 0 <= i < self.entries.len() && self.entries[i].address == address
    }

    spec fn place(self, address: Address) -> int {
        choose|i: int| 0 <= i < self.entries.len() && self.entries[i].address == address
    }

    proof fn view_at(self, i: int)
        requires
            self.distinct(),
            0 <= i < self.entries.len(),
        ensures
            self@.dom().contains(self.entries[i].address),
            self@[self.entries[i].address] == self.entries[i].content(),
    {
        let address = self.entries[i].address;
        assert(self.holds(address));
        let chosen = self.place(address);
        assert(chosen == i);
    }

    /// A store without slots.
    pub fn new() -> (store: SlotStore)
        ensures
            store@ == Map::<Address, SlotView>::empty(),
    {
        let store = SlotStore { entries: Vec::new() };
        assert(store@ =~= Map::<Address, SlotView>::empty());
        store
    }

    fn find(&self, address: &Address) -> (found: Option<usize>)
        ensures
            match found {
                Some(i) => i < self.entries.len() && self.entries[i as int].address == *address,
                None => !self.holds(*address),
            },
    {
        let mut i: usize = 0;
        while i < self.entries.len()
            invariant
                i <= self.entries.len(),
                forall|k: int| 0 <= k < i ==> self.entries[k].address != *address,
            decreases self.entries.len() - i,
        {
            if self.entries[i].address.same(address) {
                return Some(i);
            }
            i += 1;
        }
        None
    }

    /// Whether a slot stands at `address`.
    pub fn contains(&self, address: &Address) -> (present: bool)
        ensures
            present == self@.dom().contains(*address),
    {
        self.find(address).is_some()
    }

    /// The module that owns the slot at `address`.
    pub fn owner(&self, address: &Address) -> (owner: Option<Address>)
        ensures
            owner == if self@.dom().contains(*address) {
                Some(self@[*address].owner)
            } else {
                None
            },
    {
        proof {
            use_type_invariant(self);
        }
        match self.find(address) {
            Some(i) => {
                proof {
                    self.view_at(i as int);
                }
                Some(self.entries[i].owner)
            },
            None => None,
        }
    }

    /// The bytes of the slot at `address`.
    pub fn data(&self, address: &Address) -> (data: Option<&Vec<u8>>)
        ensures
            match data {
                Some(bytes) => self@.dom().contains(*address) && bytes@ == self@[*address].data,
                None => !self@.dom().contains(*address),
            },
    {
        proof {
            use_type_invariant(self);
        }
        match self.find(address) {
            Some(i) => {
                proof {
                    self.view_at(i as int);
                }
                Some(&self.entries[i].data)
            },
            None => None,
        }
    }

    /// Puts a slot with the given owner and bytes at `address`; changes
    /// nothing and returns `false` where a slot stands there already.
    pub fn load(&mut self, address: Address, owner: Address, data: Vec<u8>) -> (loaded: bool)
        ensures
            loaded == !old(self)@.dom().contains(address),
            loaded ==> final(self)@ == old(self)@.insert(address, SlotView { owner, data: data@ }),
            !loaded ==> final(self)@ == old(self)@,
    {
        proof {
            use_type_invariant(&*self);
        }
        if self.find(&address).is_some() {
            return false;
        }
        let ghost before = *self;
        let ghost content = SlotView { owner, data: data@ };
        let mut entries: Vec<Entry> = Vec::new();
        std::mem::swap(&mut self.entries, &mut entries);
        entries.push(Entry { address, owner, data });
        self.entries = entries;
        proof {
            let after = *self;
            let last = before.entries.len() as int;
            assert(after.entries@ == before.entries@.push(after.entries[last]));
            assert(after.entries[last].address == address);
            assert(after.distinct());
            assert forall|key: Address| after.holds(key) == (key == address || before.holds(
                key,
            )) by {
                if before.holds(key) {
                    let i = before.place(key);
                    assert(after.entries[i].address == key);
                }
                if after.holds(key) {
                    let i = after.place(key);
                    if i < last {
                        assert(before.entries[i].address == key);
                    }
                }
            }
            assert forall|key: Address| after@.dom().contains(key) implies after@[key]
                == before@.insert(address, content)[key] by {
                let i = after.place(key);
                after.view_at(i);
                if i < last {
                    before.view_at(i);
                }
            }
            assert(after@ =~= before@.insert(address, content));
        }
        true
    }

    /// Allocates a slot of `byte_length` zero bytes at `address` for `owner`.
    ///
    /// The allocation is refused where a slot stands at `address` already.
    pub fn create_slot(&mut self, address: Address, owner: Address, byte_length: usize) -> (done:
        Result<(), SpotSurfError>)
        ensures
            done is Ok <==> !old(self)@.dom().contains(address),
            done is Err ==> done == Err::<(), SpotSurfError>(SpotSurfError::SlotCreationFailed)
                && final(self)@ == old(self)@,
            done is Ok ==> final(self)@ == old(self)@.insert(
                address,
                SlotView { owner, data: zeros(byte_length as nat) },
            ),
    {
        if self.contains(&address) {
            return Err(SpotSurfError::SlotCreationFailed);
        }
        let mut data: Vec<u8> = Vec::new();
        let mut i: usize = 0;
        while i < byte_length
            invariant
                i <= byte_length,
                data@ == zeros(i as nat),
            decreases byte_length - i,
        {
            data.push(0u8);
            i += 1;
            assert(data@ =~= zeros(i as nat));
        }
        self.load(address, owner, data);
        Ok(())
    }

    /// Overwrites the first bytes of the slot at `address` with `bytes` and
    /// leaves the rest of the slot as it is.
    ///
    /// Fails where no slot stands at `address` or the slot is shorter than
    /// `bytes`.
    pub fn write(&mut self, address: &Address, bytes: &[u8]) -> (done: Result<(), SpotSurfError>)
        ensures
            done is Ok <==> old(self)@.dom().contains(*address) && bytes@.len() <= old(
                self,
            )@[*address].data.len(),
            done is Err ==> done == Err::<(), SpotSurfError>(SpotSurfError::CapacityExceeded)
                && final(self)@ == old(self)@,
            done is Ok ==> final(self)@ == old(self)@.insert(
                *address,
                SlotView {
                    owner: old(self)@[*address].owner,
                    data: overwritten(old(self)@[*address].data, bytes@),
                },
            ),
    {
        proof {
            use_type_invariant(&*self);
        }
        let at = match self.find(address) {
            Some(i) => i,
            None => {
                return Err(SpotSurfError::CapacityExceeded);
            },
        };
        proof {
            self.view_at(at as int);
        }
        if bytes.len() > self.entries[at].data.len() {
            return Err(SpotSurfError::CapacityExceeded);
        }
        let ghost before = *self;
        let ghost old_data = self.entries[at as int].data@;
        let owner = self.entries[at].owner;
        let mut data: Vec<u8> = Vec::new();
        let mut i: usize = 0;
        while i < self.entries[at].data.len()
            invariant
                at < self.entries.len(),
                *self == before,
                old_data == self.entries[at as int].data@,
                bytes@.len() <= old_data.len(),
                i <= old_data.len(),
                data@ == overwritten(old_data, bytes@).subrange(0, i as int),
            decreases old_data.len() - i,
        {
            if i < bytes.len() {
                data.push(bytes[i]);
            } else {
                data.push(self.entries[at].data[i]);
            }
            i += 1;
            assert(data@ =~= overwritten(old_data, bytes@).subrange(0, i as int));
        }
        assert(data@ =~= overwritten(old_data, bytes@));
        let ghost content = SlotView { owner, data: data@ };
        let mut entries: Vec<Entry> = Vec::new();
        std::mem::swap(&mut self.entries, &mut entries);
        entries[at] = Entry { address: *address, owner, data };
        self.entries = entries;
        proof {
            let after = *self;
            assert(after.entries@ == before.entries@.update(at as int, after.entries[at as int]));
            assert forall|k: int| 0 <= k < after.entries.len() implies #[trigger] after.entries[k]
                .address == before.entries[k].address by {}
            assert(after.distinct());
            assert forall|key: Address| after.holds(key) == before.holds(key) by {
                if before.holds(key) {
                    let k = before.place(key);
                    assert(after.entries[k].address == key);
                }
                if after.holds(key) {
                    let k = after.place(key);
                    assert(before.entries[k].address == key);
                }
            }
            assert forall|key: Address| after@.dom().contains(key) implies after@[key]
                == before@.insert(*address, content)[key] by {
                let k = after.place(key);
                after.view_at(k);
                before.view_at(k);
            }
            assert(after@ =~= before@.insert(*address, content));
        }
        Ok(())
    }
}

} // verus!
