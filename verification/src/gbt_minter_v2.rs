//! The capacity-bounded minting engine.

pub mod admin;
pub mod mine;
pub mod mint;
pub mod quote;
pub mod state;
