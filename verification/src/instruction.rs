//! The operations, and their decoding from the bytes of a command.

use crate::codec::{get_text, get_u16, get_u8, text_at, u16_at};
use crate::error::SpotSurfError;
use vstd::prelude::*;

verus! {

/// An operation, as a contributor sends it.
#[derive(Clone, Debug, PartialEq, Eq)]
pub enum InstructionSpotSurf {
    /// Create the profile of the sender.
    InitSpotSurfInfo { name: String, rate: u16, review: String },
    /// Give the profile of the sender a new rating and review.
    UpdateSpotSurfInfo { name: String, rate: u16, review: String },
    /// Comment on a profile.
    AddComment { comment: String },
    /// Set up the reward asset.
    InitMint,
}

/// An operation as a mathematical value.
pub enum InstructionView {
    InitSpotSurfInfo { name: Seq<char>, rate: u16, review: Seq<char> },
    UpdateSpotSurfInfo { name: Seq<char>, rate: u16, review: Seq<char> },
    AddComment { comment: Seq<char> },
    InitMint,
}

impl View for InstructionSpotSurf {
    type V = InstructionView;

    open spec fn view(&self) -> InstructionView {
        match self {
            InstructionSpotSurf::InitSpotSurfInfo { name, rate, review } => {
                InstructionView::InitSpotSurfInfo { name: name@, rate: *rate, review: review@ }
            },
            InstructionSpotSurf::UpdateSpotSurfInfo { name, rate, review } => {
                InstructionView::UpdateSpotSurfInfo { name: name@, rate: *rate, review: review@ }
            },
            InstructionSpotSurf::AddComment { comment } => {
                InstructionView::AddComment { comment: comment@ }
            },
            InstructionSpotSurf::InitMint => InstructionView::InitMint,
        }
    }
}

/// The payload of a profile: name, rating and review, which fill `bytes`
/// from the second byte to the end.
pub open spec fn profile_payload(bytes: Seq<u8>) -> Option<(Seq<char>, u16, Seq<char>)> {
    match text_at(bytes, 1) {
        Some((name, rate_pos)) => match (u16_at(bytes, rate_pos), text_at(bytes, rate_pos + 2)) {
            (Some(rate), Some((review, end))) => if end == bytes.len() {
                Some((name, rate, review))
            } else {
                None
            },
            _ => None,
        },
        None => None,
    }
}

/// The payload of a comment: a text that fills `bytes` from the second byte
/// to the end.
pub open spec fn comment_payload(bytes: Seq<u8>) -> Option<Seq<char>> {
    match text_at(bytes, 1) {
        Some((comment, end)) => if end == bytes.len() {
            Some(comment)
        } else {
            None
        },
        None => None,
    }
}

/// The operation that `bytes` spell: the first byte selects it, the others
/// are its payload. No byte may follow the payload of a profile or of a
/// comment; what follows the byte 3 is not looked at.
pub open spec fn instruction_of(bytes: Seq<u8>) -> Option<InstructionView> {
    if bytes.len() == 0 {
        None
    } else if bytes[0] == 0 {
        match profile_payload(bytes) {
            Some((name, rate, review)) => Some(
                InstructionView::InitSpotSurfInfo { name, rate, review },
            ),
            None => None,
        }
    } else if bytes[0] == 1 {
        match profile_payload(bytes) {
            Some((name, rate, review)) => Some(
                InstructionView::UpdateSpotSurfInfo { name, rate, review },
            ),
            None => None,
        }
    } else if bytes[0] == 2 {
        match comment_payload(bytes) {
            Some(comment) => Some(InstructionView::AddComment { comment }),
            None => None,
        }
    } else if bytes[0] == 3 {
        Some(InstructionView::InitMint)
    } else {
        None
    }
}

/// Reads the payload of a profile.
fn unpack_profile(input: &[u8]) -> (payload: Option<(String, u16, String)>)
    ensures
        match payload {
            Some((name, rate, review)) => profile_payload(input@) == Some((name@, rate, review@)),
            None => profile_payload(input@) is None,
        },
{
    let (name, rate_pos) = match get_text(input, 1) {
        Some(found) => found,
        None => {
            return None;
        },
    };
    let rate = match get_u16(input, rate_pos) {
        Some(rate) => rate,
        None => {
            return None;
        },
    };
    let (review, end) = match get_text(input, rate_pos + 2) {
        Some(found) => found,
        None => {
            return None;
        },
    };
    if end != input.len() {
        return None;
    }
    Some((name, rate, review))
}

/// Reads the payload of a comment.
fn unpack_comment(input: &[u8]) -> (payload: Option<String>)
    ensures
        match payload {
            Some(comment) => comment_payload(input@) == Some(comment@),
            None => comment_payload(input@) is None,
        },
{
    match get_text(input, 1) {
        Some((comment, end)) => if end == input.len() {
            Some(comment)
        } else {
            None
        },
        None => None,
    }
}

impl InstructionSpotSurf {
    /// Decodes the bytes of a command into an operation.
    ///
    /// Fails where the bytes are empty, the first byte names no operation, or
    /// the payload is malformed.
    pub fn unpack(input: &[u8]) -> (instruction: Result<InstructionSpotSurf, SpotSurfError>)
        ensures
            match instruction {
                Ok(i) => instruction_of(input@) == Some(i@),
                Err(e) => e == SpotSurfError::InvalidInstructionData && instruction_of(input@)
                    is None,
            },
    {
        let variant = match get_u8(input, 0) {
            Some(variant) => variant,
            None => {
                return Err(SpotSurfError::InvalidInstructionData);
            },
        };
        if variant == 0 {
            match unpack_profile(input) {
                Some((name, rate, review)) => Ok(
                    InstructionSpotSurf::InitSpotSurfInfo { name, rate, review },
                ),
                None => Err(SpotSurfError::InvalidInstructionData),
            }
        } else if variant == 1 {
            match unpack_profile(input) {
                Some((name, rate, review)) => Ok(
                    InstructionSpotSurf::UpdateSpotSurfInfo { name, rate, review },
                ),
                None => Err(SpotSurfError::InvalidInstructionData),
            }
        } else if variant == 2 {
            match unpack_comment(input) {
                Some(comment) => Ok(InstructionSpotSurf::AddComment { comment }),
                None => Err(SpotSurfError::InvalidInstructionData),
            }
        } else if variant == 3 {
            Ok(InstructionSpotSurf::InitMint)
        } else {
            Err(SpotSurfError::InvalidInstructionData)
        }
    }
}

} // verus!
