//! A price oracle whose price its administrator sets by hand.
//!
//! The party that an operation names as `admin` must have authorized the
//! call, which is for the embedding program to verify before it calls.

use crate::address::Address;
use vstd::prelude::*;

verus! {

/// What the oracle keeps on the ledger, each field under the key of its
/// name.
#[derive(Debug)]
pub struct State {
    /// Whether the oracle was initialized.
    pub init: bool,
    /// The administrator.
    pub admin: Option<Address>,
    /// The price, scaled by ten million.
    pub price: Option<i128>,
}

/// Why the oracle refused an operation.  A refused operation changes nothing.
#[derive(Clone, Copy, Debug, PartialEq, Eq, Structural)]
pub enum OracleError {
    /// The party acting is not the administrator.
    NotAdmin,
    /// The oracle has no administrator yet.
    NotInitialized,
}

impl State {
    /// Whether `who` is the administrator.
    pub open spec fn admin_is(self, who: Address) -> bool {
        self.admin matches Some(admin) && admin@ == who@
    }

    /// The price that the oracle quotes: the one set, or zero if none is.
    pub open spec fn quoted(self) -> i128 {
        match self.price {
            Some(price) => price,
            None => 0,
        }
    }

    /// The state of an oracle that has never been touched.
    pub fn new() -> (st: State)
        ensures
            st == (State { init: false, admin: None, price: None }),
    {
        State { init: false, admin: None, price: None }
    }
}

/// The oracle contract.  Its operations act on the [`State`] that the caller
/// holds.
pub struct OracleMock;

impl OracleMock {
    /// Initializes the oracle with its administrator and a first price,
    /// once.  A second call changes nothing.
    pub fn init(st: &mut State, admin: Address, initial_price_scaled_1e7: i128)
        ensures
            old(st).init ==> *final(st) == *old(st),
            !old(st).init ==> *final(st) == (State {
                init: true,
                admin: Some(admin),
                price: Some(initial_price_scaled_1e7),
            }),
    {
        if st.init {
            return ;
        }
        st.admin = Some(admin);
        st.price = Some(initial_price_scaled_1e7);
        st.init = true;
    }

    /// Sets the price, if the oracle has an administrator and `admin` is the
    /// one.
    pub fn set_price(st: &mut State, admin: &Address, new_price_scaled_1e7: i128) -> (done: Result<
        (),
        OracleError,
    >)
        ensures
            old(st).admin_is(*admin) ==> done is Ok && *final(st) == (State {
                price: Some(new_price_scaled_1e7),
                ..*old(st)
            }),
            !old(st).admin_is(*admin) ==> *final(st) == *old(st) && done == Err::<(), OracleError>(
                if old(st).admin is None {
                    OracleError::NotInitialized
                } else {
                    OracleError::NotAdmin
                },
            ),
    {
        match &st.admin {
            Some(stored) => {
                if !stored.same_as(admin) {
                    return Err(OracleError::NotAdmin);
                }
            },
            None => {
                return Err(OracleError::NotInitialized);
            },
        }
        st.price = Some(new_price_scaled_1e7);
        Ok(())
    }

    /// Returns the price, or zero if none was ever set.
    pub fn get_price(st: &State) -> (price: i128)
        ensures
            price == st.quoted(),
    {
        match st.price {
            Some(price) => price,
            None => 0,
        }
    }
}

} // verus!
