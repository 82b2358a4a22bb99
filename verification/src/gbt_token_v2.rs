//! A token with metadata, whose operations refuse nothing: what they do not
//! accept, their callers must not ask for.
//!
//! Where an operation names the party that acts (`admin`, `current_admin`,
//! `from`), that party must have authorized the call, which is for the
//! embedding program to verify before it calls.  Where the acting party is
//! the stored administrator, the operation is told in `signer` whose
//! authorization came with the call.

use crate::address::Address;
use crate::arith::fits_i128;
use crate::balances::{balance_in, credited, movable, moved, Balances};
use vstd::prelude::*;

verus! {

/// What the token keeps on the ledger.
#[derive(Debug)]
pub struct State {
    /// The administrator; absent until the token is initialized.
    pub admin: Option<Address>,
    /// Decimal places of one unit.
    pub decimals: u32,
    /// The token's name.
    pub name: String,
    /// The token's ticker symbol.
    pub symbol: String,
    /// The balances of the holders.
    pub bal: Balances,
}

impl State {
    /// Whether `who` is the administrator of an initialized token.
    pub open spec fn admin_is(self, who: Address) -> bool {
        self.admin matches Some(admin) && admin@ == who@
    }

    /// The state of a token that has never been touched.
    pub fn new() -> (st: State)
        ensures
            st.admin is None,
            st.decimals == 0,
            st.name@ == Seq::<char>::empty(),
            st.symbol@ == Seq::<char>::empty(),
            st.bal@ == Map::<Seq<char>, i128>::empty(),
    {
        State {
            admin: None,
            decimals: 0,
            name: String::new(),
            symbol: String::new(),
            bal: Balances::new(),
        }
    }
}

/// The token contract.  Its operations act on the [`State`] that the caller
/// holds.
pub struct GbtTokenV2;

impl GbtTokenV2 {
    /// Initializes the token, once.  A second call changes nothing.
    pub fn init(st: &mut State, admin: Address, decimals: u32, name: String, symbol: String)
        ensures
            old(st).admin is Some ==> *final(st) == *old(st),
            old(st).admin is None ==> *final(st) == (State {
                admin: Some(admin),
                decimals,
                name,
                symbol,
                bal: old(st).bal,
            }),
    {
        if st.admin.is_some() {
            return ;
        }
        st.admin = Some(admin);
        st.decimals = decimals;
        st.name = name;
        st.symbol = symbol;
    }

    /// Hands the administration over from `current_admin`, who must be the
    /// administrator, to `new_admin`.
    pub fn set_admin(st: &mut State, current_admin: &Address, new_admin: Address)
        requires
            old(st).admin_is(*current_admin),
        ensures
            *final(st) == (State { admin: Some(new_admin), ..*old(st) }),
    {
        st.admin = Some(new_admin);
    }

    /// Returns the balance of `owner`.
    pub fn balance(st: &State, owner: &Address) -> (held: i128)
        ensures
            held == balance_in(st.bal@, owner@),
    {
        st.bal.get(owner)
    }

    /// Sends `amount`, which must be positive and no more than `from` holds,
    /// from `from` to `to`.
    pub fn transfer(st: &mut State, from: &Address, to: &Address, amount: i128)
        requires
            amount > 0,
            balance_in(old(st).bal@, from@) >= amount,
            movable(old(st).bal@, from@, to@, amount as int),
        ensures
            final(st).bal@ == moved(old(st).bal@, from@, to@, amount as int),
            final(st).admin == old(st).admin,
            final(st).decimals == old(st).decimals,
            final(st).name == old(st).name,
            final(st).symbol == old(st).symbol,
    {
        st.bal.move_between(from, to, amount);
    }

    /// Creates `amount`, which must be positive, and credits it to `to`.
    /// `signer` must be the administrator.
    pub fn mint(st: &mut State, signer: &Address, to: &Address, amount: i128)
        requires
            amount > 0,
            old(st).admin_is(*signer),
            fits_i128(balance_in(old(st).bal@, to@) + amount),
        ensures
            final(st).bal@ == credited(old(st).bal@, to@, amount as int),
            final(st).admin == old(st).admin,
            final(st).decimals == old(st).decimals,
            final(st).name == old(st).name,
            final(st).symbol == old(st).symbol,
    {
        st.bal.credit(to, amount);
    }
}

} // verus!
