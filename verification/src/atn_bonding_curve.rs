//! A sale of one token for another at a quoted cost.
//!
//! The party that an operation names as `admin` or `payer` must have
//! authorized the call, which is for the embedding program to verify before
//! it calls.

use crate::address::Address;
use crate::calls::{MintCall, TransferCall};
use vstd::prelude::*;

verus! {

/// What the sale keeps on the ledger, each field under the key of its name.
#[derive(Debug)]
pub struct State {
    /// The administrator; absent until the sale is initialized.
    pub admin: Option<Address>,
    /// Ledger of the token sold.
    pub token_atn: Option<Address>,
    /// Ledger of the token paid in.
    pub token_res: Option<Address>,
}

/// The two calls of one purchase, in the order in which they are made.
#[derive(Debug, PartialEq, Eq)]
pub struct Purchase {
    /// The payment, from the payer to the sale.
    pub payment: TransferCall,
    /// The token sold, credited to the payer.
    pub delivery: MintCall,
}

impl State {
    /// The state of a sale that has never been touched.
    pub fn new() -> (st: State)
        ensures
            st == (State { admin: None, token_atn: None, token_res: None }),
    {
        State { admin: None, token_atn: None, token_res: None }
    }
}

/// The sale contract.  Its operations act on the [`State`] that the caller
/// holds.
pub struct AtnBondingCurve;

impl AtnBondingCurve {
    /// Initializes the sale with its administrator and its two tokens, once.
    /// A second call changes nothing.
    pub fn init(st: &mut State, admin: Address, token_atn: Address, token_res: Address)
        ensures
            old(st).admin is Some ==> *final(st) == *old(st),
            old(st).admin is None ==> *final(st) == (State {
                admin: Some(admin),
                token_atn: Some(token_atn),
                token_res: Some(token_res),
            }),
    {
        if st.admin.is_some() {
            return ;
        }
        st.admin = Some(admin);
        st.token_atn = Some(token_atn);
        st.token_res = Some(token_res);
    }

    /// Sells `amount_atn` to `payer` for `cost`: the cost is paid to the
    /// sale, whose own address is `curve`, and the amount is created for the
    /// payer.  Neither number is checked against the other.
    pub fn buy(st: &State, curve: Address, payer: &Address, amount_atn: i128, cost: i128) -> (purchase:
        Purchase)
        requires
            st.token_atn is Some,
            st.token_res is Some,
        ensures
            purchase.payment == (TransferCall {
                token: st.token_res->0,
                from: *payer,
                to: curve,
                amount: cost,
            }),
            purchase.delivery == (MintCall {
                token: st.token_atn->0,
                to: *payer,
                amount: amount_atn,
            }),
    {
        let token_atn = st.token_atn.as_ref().unwrap();
        let token_res = st.token_res.as_ref().unwrap();
        Purchase {
            payment: TransferCall {
                token: token_res.clone(),
                from: payer.clone(),
                to: curve,
                amount: cost,
            },
            delivery: MintCall { token: token_atn.clone(), to: payer.clone(), amount: amount_atn },
        }
    }

    /// Returns the cost of `amount_atn`: as much of the token paid in.
    pub fn quote_cost(amount_atn: i128) -> (cost: i128)
        ensures
            cost == amount_atn,
    {
        amount_atn
    }
}

} // verus!
