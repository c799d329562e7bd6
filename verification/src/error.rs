//! The errors with which an operation is refused.

use vstd::prelude::*;

verus! {

/// Every way an operation can be rejected.
///
/// The first five variants are the program's own errors and keep their
/// position, because the host sees them as a number (see [`SpotSurfError::code`]).
#[derive(Clone, Copy, Debug, PartialEq, Eq, Structural)]
pub enum SpotSurfError {
    /// The record that was to be changed has never been written.
    UninitializedAccount,
    /// A slot address does not equal the address derived for its role.
    InvalidPDA,
    /// The record does not fit the room its slot offers.
    InvalidDataLength,
    /// A module or balance account is not the one the program expects.
    IncorrectAccountError,
    /// The rating lies outside `1..=5`.
    InvalidRating,
    /// The command bytes name no operation, or their payload is malformed.
    InvalidInstructionData,
    /// The bytes of a slot do not hold a record of the expected kind.
    DecodeError,
    /// The record that was to be created has been written before.
    AlreadyInitialized,
    /// The slot that was to be changed belongs to another module.
    IllegalOwner,
    /// The host refused to allocate a slot.
    SlotCreationFailed,
    /// The encoded record is longer than the slot it was to be written to.
    CapacityExceeded,
    /// The reward sub-ledger refused to issue a reward.
    RewardIssuanceFailed,
    /// Fewer slot handles were passed than the operation has roles.
    NotEnoughAccountKeys,
    /// The comment counter of the profile has reached its last value.
    CounterOverflow,
}

impl SpotSurfError {
    /// The number under which the host reports one of the program's own
    /// errors; `None` for the errors that the host names itself.
    pub open spec fn spec_code(self) -> Option<u32> {
        match self {
            SpotSurfError::UninitializedAccount => Some(0),
            SpotSurfError::InvalidPDA => Some(1),
            SpotSurfError::InvalidDataLength => Some(2),
            SpotSurfError::IncorrectAccountError => Some(3),
            SpotSurfError::InvalidRating => Some(4),
            _ => None,
        }
    }

    /// The number under which the host reports this error, if it is one of the
    /// program's own.
    #[verifier::when_used_as_spec(spec_code)]
    pub fn code(self) -> (code: Option<u32>)
        ensures
            code == self.spec_code(),
    {
        match self {
            SpotSurfError::UninitializedAccount => Some(0),
            SpotSurfError::InvalidPDA => Some(1),
            SpotSurfError::InvalidDataLength => Some(2),
            SpotSurfError::IncorrectAccountError => Some(3),
            SpotSurfError::InvalidRating => Some(4),
            _ => None,
        }
    }

    /// The text that describes this error to a person.
    pub open spec fn spec_message(self) -> Seq<char> {
        match self {
            SpotSurfError::UninitializedAccount => "Account not initialized yet"@,
            SpotSurfError::InvalidPDA => "PDA derived does not equal PDA passed in"@,
            SpotSurfError::InvalidDataLength => "Input data exceeds max length"@,
            SpotSurfError::IncorrectAccountError => "Accounts do not match"@,
            SpotSurfError::InvalidRating => "Rating does not between 0 and 5"@,
            SpotSurfError::InvalidInstructionData => "Instruction data is not valid"@,
            SpotSurfError::DecodeError => "Account data is malformed"@,
            SpotSurfError::AlreadyInitialized => "Account already initialized"@,
            SpotSurfError::IllegalOwner => "Account is owned by another program"@,
            SpotSurfError::SlotCreationFailed => "Account could not be created"@,
            SpotSurfError::CapacityExceeded => "Record exceeds the account's capacity"@,
            SpotSurfError::RewardIssuanceFailed => "Reward could not be issued"@,
            SpotSurfError::NotEnoughAccountKeys => "Not enough account keys"@,
            SpotSurfError::CounterOverflow => "Comment counter is exhausted"@,
        }
    }

    /// The text that describes this error to a person.
    pub fn message(self) -> (text: &'static str)
        ensures
            text@ == self.spec_message(),
    {
        match self {
            SpotSurfError::UninitializedAccount => "Account not initialized yet",
            SpotSurfError::InvalidPDA => "PDA derived does not equal PDA passed in",
            SpotSurfError::InvalidDataLength => "Input data exceeds max length",
            SpotSurfError::IncorrectAccountError => "Accounts do not match",
            SpotSurfError::InvalidRating => "Rating does not between 0 and 5",
            SpotSurfError::InvalidInstructionData => "Instruction data is not valid",
            SpotSurfError::DecodeError => "Account data is malformed",
            SpotSurfError::AlreadyInitialized => "Account already initialized",
            SpotSurfError::IllegalOwner => "Account is owned by another program",
            SpotSurfError::SlotCreationFailed => "Account could not be created",
            SpotSurfError::CapacityExceeded => "Record exceeds the account's capacity",
            SpotSurfError::RewardIssuanceFailed => "Reward could not be issued",
            SpotSurfError::NotEnoughAccountKeys => "Not enough account keys",
            SpotSurfError::CounterOverflow => "Comment counter is exhausted",
        }
    }
}

} // verus!
