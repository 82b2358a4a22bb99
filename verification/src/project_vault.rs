//! A vault that counts what is deposited through it.
//!
//! The party that an operation names as `admin` or `from` must have
//! authorized the call, which is for the embedding program to verify before
//! it calls.

use crate::address::Address;
use crate::arith::fits_i128;
use crate::calls::TransferCall;
use vstd::prelude::*;

verus! {

/// What the vault keeps on the ledger, each field under the key of its name.
#[derive(Debug)]
pub struct State {
    /// Whether the vault was initialized.
    pub init: bool,
    /// The administrator.
    pub admin: Option<Address>,
    /// The amount locked: deposits less withdrawals.
    pub total: i128,
}

impl State {
    /// Whether `who` is the administrator.
    pub open spec fn admin_is(self, who: Address) -> bool {
        self.admin matches Some(admin) && admin@ == who@
    }

    /// The state of a vault that has never been touched.
    pub fn new() -> (st: State)
        ensures
            st == (State { init: false, admin: None, total: 0 }),
    {
        State { init: false, admin: None, total: 0 }
    }
}

/// The vault contract.  Its operations act on the [`State`] that the caller
/// holds.
pub struct ProjectVault;

impl ProjectVault {
    /// Initializes the vault with its administrator and nothing locked,
    /// once.  A second call changes nothing.
    pub fn init(st: &mut State, admin: Address)
        ensures
            old(st).init ==> *final(st) == *old(st),
            !old(st).init ==> *final(st) == (State { init: true, admin: Some(admin), total: 0 }),
    {
        if st.init {
            return ;
        }
        st.admin = Some(admin);
        st.total = 0;
        st.init = true;
    }

    /// Deposits `amount` of `token_gbt` from `from` with `to`, and counts it
    /// as locked.  Returns the transfer to be made.
    pub fn deposit(
        st: &mut State,
        token_gbt: Address,
        from: Address,
        to: Address,
        amount: i128,
    ) -> (call: TransferCall)
        requires
            fits_i128(old(st).total + amount),
        ensures
            call == (TransferCall { token: token_gbt, from, to, amount }),
            *final(st) == (State { total: (old(st).total + amount) as i128, ..*old(st) }),
    {
        st.total = st.total + amount;
        TransferCall { token: token_gbt, from, to, amount }
    }

    /// Returns the amount locked.
    pub fn total_locked(st: &State) -> (total: i128)
        ensures
            total == st.total,
    {
        st.total
    }

    /// Withdraws `amount` of `token_gbt` from the vault, whose own address is
    /// `vault`, to `to`, and counts it as no longer locked.  `admin` must be
    /// the administrator.  Returns the transfer to be made.
    pub fn withdraw(
        st: &mut State,
        vault: Address,
        admin: &Address,
        token_gbt: Address,
        to: Address,
        amount: i128,
    ) -> (call: TransferCall)
        requires
            old(st).admin_is(*admin),
            fits_i128(old(st).total - amount),
        ensures
            call == (TransferCall { token: token_gbt, from: vault, to, amount }),
            *final(st) == (State { total: (old(st).total - amount) as i128, ..*old(st) }),
    {
        st.total = st.total - amount;
        TransferCall { token: token_gbt, from: vault, to, amount }
    }
}

} // verus!
