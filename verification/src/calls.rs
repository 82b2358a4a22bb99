//! Calls that a contract asks its host to make on other contracts.
//!
//! A contract model never reaches another contract itself.  It returns the
//! calls to be made, in the order in which they are to be made, and the
//! embedding program makes them.  On a ledger that runs each operation as one
//! atomic transaction, a call that fails undoes the whole operation; an
//! embedding without that guarantee must discard the state the operation
//! returned if any of its calls fails.

use crate::address::Address;
use vstd::prelude::*;

verus! {

/// `token.transfer(from, to, amount)`: move `amount` of `token` from `from`,
/// who must have authorized it, to `to`.
#[derive(Debug, PartialEq, Eq)]
pub struct TransferCall {
    pub token: Address,
    pub from: Address,
    pub to: Address,
    pub amount: i128,
}

/// `token.mint(to, amount)`: create `amount` of `token` and credit it to
/// `to`.  Only the token's mint authority may ask for it.
#[derive(Debug, PartialEq, Eq)]
pub struct MintCall {
    pub token: Address,
    pub to: Address,
    pub amount: i128,
}

/// `treasury.route(token, from, amount)`: hand `amount` of `token` from
/// `from`, who must have authorized it, to the treasury for distribution.
#[derive(Debug, PartialEq, Eq)]
pub struct RouteCall {
    pub treasury: Address,
    pub token: Address,
    pub from: Address,
    pub amount: i128,
}

} // verus!
