//! The operations, one module each.

pub mod add_comment;
pub mod add_spot_surf;
pub mod initialize_token_mint;
pub mod update_spot_surf;
