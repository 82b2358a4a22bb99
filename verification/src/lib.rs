//! Verified accounting core of a family of ledger contracts.
//!
//! The centre of the crate is [`gbt_minter_v2`], a capacity-bounded minting
//! engine: it turns a deposit of a stable asset into units of an issued asset
//! at an externally quoted price, never issuing more than the weighted
//! inventory of the registered mines allows.  Around it stand the contracts
//! it works with: two tokens, a price oracle, a treasury, a vault and a sale.
//!
//! Every contract is a type without fields whose operations act on a state
//! that the caller holds.  The operations read no ledger, verify no
//! signature and call no other contract; the program that embeds them does:
//!
//! - It reads the state from the ledger before an operation and writes it
//!   back after.
//! - It verifies authorizations.  An operation that names the party acting
//!   is to be called only once that party's authorization is verified; an
//!   operation reserved to a stored administrator is told in `signer` whose
//!   authorization came with the call, and decides itself; a mint asks for
//!   the authorization it needs.
//! - It makes the calls on other contracts that an operation returns (see
//!   [`calls`]), in their order, and lets nothing of the operation stand if
//!   one of them fails.
//!
//! Amounts are 128-bit integers.  Where a result or an intermediate value
//! would not fit, an operation is not to be called at all: each such
//! operation states the range it needs, and has a companion that tests for
//! it or computes under test.

pub mod address;
pub mod arith;
pub mod atn_bonding_curve;
pub mod balances;
pub mod calls;
pub mod gbt_minter_v2;
pub mod gbt_token_min;
pub mod gbt_token_v2;
pub mod hola_soroban;
pub mod oracle_mock;
pub mod project_vault;
pub mod treasury;
