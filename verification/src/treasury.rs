//! The treasury: splits what it is handed among three pools.
//!
//! The party that an operation names as `admin` or `from` must have
//! authorized the call, which is for the embedding program to verify before
//! it calls.

use crate::address::Address;
use crate::arith::{div_toward_zero, fits_i128};
use crate::calls::TransferCall;
use vstd::prelude::*;

verus! {

/// Share of the projects pool, in hundredths.
pub const SHARE_PROJECTS: i128 = 50;

/// Share of the recovery pool, in hundredths.
pub const SHARE_RECOVERY: i128 = 30;

/// Share of the operator's pool, in hundredths.
pub const SHARE_ALTERNUN: i128 = 20;

/// What the treasury keeps on the ledger, each field under the key of its
/// name.
#[derive(Debug)]
pub struct State {
    /// The administrator; absent until the treasury is initialized.
    pub admin: Option<Address>,
    /// The projects pool.
    pub addr_p: Option<Address>,
    /// The recovery pool.
    pub addr_r: Option<Address>,
    /// The operator's pool.
    pub addr_a: Option<Address>,
}

/// Why the treasury refused an operation.  A refused operation changes
/// nothing.
#[derive(Clone, Copy, Debug, PartialEq, Eq, Structural)]
pub enum TreasuryError {
    /// The party acting is not the administrator.
    NotAdmin,
}

/// The three transfers of one routing, in the order in which they are made.
#[derive(Debug, PartialEq, Eq)]
pub struct Split {
    pub to_projects: TransferCall,
    pub to_recovery: TransferCall,
    pub to_alternun: TransferCall,
}

/// The part of `amount` that a pool with `share` hundredths receives.
pub open spec fn part_of(amount: int, share: int) -> int {
    div_toward_zero(amount * share, 100)
}

impl State {
    /// Whether `who` is the administrator of an initialized treasury.
    pub open spec fn admin_is(self, who: Address) -> bool {
        self.admin matches Some(admin) && admin@ == who@
    }

    /// All three pools are set.
    pub open spec fn pools_set(self) -> bool {
        self.addr_p is Some && self.addr_r is Some && self.addr_a is Some
    }

    /// The state of a treasury that has never been touched.
    pub fn new() -> (st: State)
        ensures
            st == (State { admin: None, addr_p: None, addr_r: None, addr_a: None }),
    {
        State { admin: None, addr_p: None, addr_r: None, addr_a: None }
    }
}

/// The treasury contract.  Its operations act on the [`State`] that the
/// caller holds.
pub struct Treasury;

impl Treasury {
    /// Initializes the treasury with its administrator and its pools, once.
    /// A second call changes nothing.
    pub fn init(st: &mut State, admin: Address, addr_p: Address, addr_r: Address, addr_a: Address)
        ensures
            old(st).admin is Some ==> *final(st) == *old(st),
            old(st).admin is None ==> *final(st) == (State {
                admin: Some(admin),
                addr_p: Some(addr_p),
                addr_r: Some(addr_r),
                addr_a: Some(addr_a),
            }),
    {
        if st.admin.is_some() {
            return ;
        }
        st.admin = Some(admin);
        st.addr_p = Some(addr_p);
        st.addr_r = Some(addr_r);
        st.addr_a = Some(addr_a);
    }

    /// Replaces the three pools, if `admin` is the administrator.  A treasury
    /// that was never initialized has none.
    pub fn set_pools(
        st: &mut State,
        admin: &Address,
        addr_p: Address,
        addr_r: Address,
        addr_a: Address,
    ) -> (done: Result<(), TreasuryError>)
        ensures
            old(st).admin_is(*admin) ==> done is Ok && *final(st) == (State {
                admin: old(st).admin,
                addr_p: Some(addr_p),
                addr_r: Some(addr_r),
                addr_a: Some(addr_a),
            }),
            !old(st).admin_is(*admin) ==> done == Err::<(), TreasuryError>(
                TreasuryError::NotAdmin,
            ) && *final(st) == *old(st),
    {
        let allowed = match &st.admin {
            Some(stored) => stored.same_as(admin),
            None => false,
        };
        if !allowed {
            return Err(TreasuryError::NotAdmin);
        }
        st.addr_p = Some(addr_p);
        st.addr_r = Some(addr_r);
        st.addr_a = Some(addr_a);
        Ok(())
    }

    /// Tells whether `amount` is one that [`Treasury::route`] can split in
    /// 128-bit arithmetic.
    pub fn can_route(amount: i128) -> (ok: bool)
        ensures
            ok == fits_i128(amount * SHARE_PROJECTS),
    {
        amount.checked_mul(SHARE_PROJECTS).is_some()
    }

    /// Splits `amount` of `token`, coming from `from`, among the pools: half
    /// to projects, three tenths to recovery, two tenths to the operator, each
    /// part rounded toward zero.  Of an amount that is not negative the parts
    /// never add up to more than the amount, and fall short of it by two at
    /// the most.
    pub fn route(st: &State, token: &Address, from: &Address, amount: i128) -> (split: Split)
        requires
            st.pools_set(),
            fits_i128(amount * SHARE_PROJECTS),
        ensures
            split.to_projects == (TransferCall {
                token: *token,
                from: *from,
                to: st.addr_p->0,
                amount: part_of(amount as int, SHARE_PROJECTS as int) as i128,
            }),
            split.to_recovery == (TransferCall {
                token: *token,
                from: *from,
                to: st.addr_r->0,
                amount: part_of(amount as int, SHARE_RECOVERY as int) as i128,
            }),
            split.to_alternun == (TransferCall {
                token: *token,
                from: *from,
                to: st.addr_a->0,
                amount: part_of(amount as int, SHARE_ALTERNUN as int) as i128,
            }),
            amount >= 0 ==> amount - 2 <= split.to_projects.amount + split.to_recovery.amount
                + split.to_alternun.amount <= amount,
    {
        let p = amount * SHARE_PROJECTS / 100;
        let r = amount * SHARE_RECOVERY / 100;
        let a = amount * SHARE_ALTERNUN / 100;
        let addr_p = st.addr_p.as_ref().unwrap();
        let addr_r = st.addr_r.as_ref().unwrap();
        let addr_a = st.addr_a.as_ref().unwrap();
        Split {
            to_projects: TransferCall {
                token: token.clone(),
                from: from.clone(),
                to: addr_p.clone(),
                amount: p,
            },
            to_recovery: TransferCall {
                token: token.clone(),
                from: from.clone(),
                to: addr_r.clone(),
                amount: r,
            },
            to_alternun: TransferCall {
                token: token.clone(),
                from: from.clone(),
                to: addr_a.clone(),
                amount: a,
            },
        }
    }
}

} // verus!
