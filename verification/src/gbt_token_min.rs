//! A minimal token: an administrator who mints, and holders who transfer.
//!
//! Where an operation names the party that acts (`admin`, `current_admin`,
//! `from`), that party must have authorized the call, which is for the
//! embedding program to verify before it calls.  Where the acting party is
//! the stored administrator, the operation is told in `signer` whose
//! authorization came with the call.  A token that was never initialized has
//! no administrator.

use crate::address::Address;
use crate::arith::fits_i128;
use crate::balances::{balance_in, credited, movable, moved, Balances};
use vstd::prelude::*;

verus! {

/// What the token keeps on the ledger, each field under the key of its name.
#[derive(Debug)]
pub struct Keys {
    /// The administrator; absent until the token is initialized.
    pub admin: Option<Address>,
    /// The balances of the holders.
    pub bal: Balances,
}

/// Why the token refused an operation.  A refused operation changes nothing.
#[derive(Clone, Copy, Debug, PartialEq, Eq, Structural)]
pub enum TokenError {
    /// The party acting is not the administrator.
    NotAdmin,
    /// The sender holds less than the amount to be sent.
    Insufficient,
}

impl Keys {
    /// Whether `who` is the administrator of an initialized token.
    pub open spec fn admin_is(self, who: Address) -> bool {
        self.admin matches Some(admin) && admin@ == who@
    }

    /// The state of a token that has never been touched.
    pub fn new() -> (st: Keys)
        ensures
            st.admin is None,
            st.bal@ == Map::<Seq<char>, i128>::empty(),
    {
        Keys { admin: None, bal: Balances::new() }
    }
}

/// The token contract.  Its operations act on the [`Keys`] that the caller
/// holds.
pub struct GbtTokenMin;

impl GbtTokenMin {
    /// Initializes the token with `admin` as its administrator and no
    /// balances, once.  A second call changes nothing.
    pub fn init(st: &mut Keys, admin: Address)
        ensures
            old(st).admin is Some ==> *final(st) == *old(st),
            old(st).admin is None ==> final(st).admin == Some(admin) && final(st).bal@ == Map::<
                Seq<char>,
                i128,
            >::empty(),
    {
        if st.admin.is_some() {
            return ;
        }
        st.admin = Some(admin);
        st.bal = Balances::new();
    }

    /// Hands the administration over from `current_admin` to `new_admin`.
    pub fn set_admin(st: &mut Keys, current_admin: &Address, new_admin: Address) -> (done: Result<
        (),
        TokenError,
    >)
        ensures
            final(st).bal == old(st).bal,
            old(st).admin_is(*current_admin) ==> done is Ok && final(st).admin == Some(new_admin),
            !old(st).admin_is(*current_admin) ==> done == Err::<(), TokenError>(
                TokenError::NotAdmin,
            ) && final(st).admin == old(st).admin,
    {
        let allowed = match &st.admin {
            Some(admin) => admin.same_as(current_admin),
            None => false,
        };
        if !allowed {
            return Err(TokenError::NotAdmin);
        }
        st.admin = Some(new_admin);
        Ok(())
    }

    /// Creates `amount` and credits it to `to`.  Only the administrator may.
    pub fn mint(st: &mut Keys, signer: &Address, to: &Address, amount: i128) -> (done: Result<
        (),
        TokenError,
    >)
        requires
            old(st).admin_is(*signer) ==> fits_i128(balance_in(old(st).bal@, to@) + amount),
        ensures
            final(st).admin == old(st).admin,
            old(st).admin_is(*signer) ==> done is Ok && final(st).bal@ == credited(
                old(st).bal@,
                to@,
                amount as int,
            ),
            !old(st).admin_is(*signer) ==> done == Err::<(), TokenError>(TokenError::NotAdmin)
                && final(st).bal == old(st).bal,
    {
        let allowed = match &st.admin {
            Some(admin) => admin.same_as(signer),
            None => false,
        };
        if !allowed {
            return Err(TokenError::NotAdmin);
        }
        st.bal.credit(to, amount);
        Ok(())
    }

    /// Sends `amount` from `from` to `to`, if `from` holds that much.
    pub fn transfer(st: &mut Keys, from: &Address, to: &Address, amount: i128) -> (done: Result<
        (),
        TokenError,
    >)
        requires
            balance_in(old(st).bal@, from@) >= amount ==> movable(
                old(st).bal@,
                from@,
                to@,
                amount as int,
            ),
        ensures
            final(st).admin == old(st).admin,
            balance_in(old(st).bal@, from@) >= amount ==> done is Ok && final(st).bal@ == moved(
                old(st).bal@,
                from@,
                to@,
                amount as int,
            ),
            balance_in(old(st).bal@, from@) < amount ==> done == Err::<(), TokenError>(
                TokenError::Insufficient,
            ) && final(st).bal == old(st).bal,
    {
        if st.bal.get(from) < amount {
            return Err(TokenError::Insufficient);
        }
        st.bal.move_between(from, to, amount);
        Ok(())
    }

    /// Returns the balance of `owner`.
    pub fn balance(st: &Keys, owner: &Address) -> (held: i128)
        ensures
            held == balance_in(st.bal@, owner@),
    {
        st.bal.get(owner)
    }
}

} // verus!
