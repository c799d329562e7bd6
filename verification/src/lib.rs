//! A review protocol for surf spots over storage slots with derived addresses.
//!
//! A contributor keeps one profile, a rated review of a spot, in a slot whose
//! address is derived from the contributor's identity. Others comment on it;
//! each comment lives in a slot of its own, numbered by a counter that is
//! created with the profile. New profiles and comments earn a reward from a
//! sub-ledger that the library never touches: it only grants the authority
//! to issue one.
//!
//! Every operation is a function of the slots it is handed, in a
//! [`store::SlotStore`], and of its input. It checks everything before it
//! writes anything, so a refused operation leaves the store as it was, and an
//! accepted one returns what the host is to do for it.

pub mod address;
pub mod codec;
pub mod deposit;
pub mod error;
pub mod host;
pub mod instruction;
pub mod instructions;
pub mod lifecycle;
pub mod processor;
pub mod reward;
pub mod sequencer;
pub mod state;
pub mod store;
