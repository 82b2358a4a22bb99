//! The engine's persistent state and the capacity derived from it.

use crate::address::Address;
use crate::arith::{clamp_at_zero, fits_i128};
use crate::gbt_minter_v2::mine::{
    capacity_in_range,
    capacity_of,
    capacity_of_bounded_mine,
    capacity_of_mine,
    checked_capacity_of_mine,
    MineData,
};
use std::collections::HashMap;
use vstd::prelude::*;

verus! {

broadcast use vstd::std_specs::hash::group_hash_axioms;

/// Why the engine refused an operation.  A refused operation changes nothing.
#[derive(Clone, Copy, Debug, PartialEq, Eq, Structural)]
pub enum EngineError {
    /// The authorization that came with the call is not that of the identity
    /// the operation is reserved to.
    AuthorizationFailure,
    /// Minting is paused.
    PausedFailure,
    /// The deposit buys less than one gram, or nothing at all.
    BelowMinimumFailure,
    /// A collaborating contract failed, or answered out of turn.
    CollaboratorFailure,
}

/// The slots under which the engine's state is kept on the ledger.
#[derive(Clone, Copy, Debug, PartialEq, Eq, Structural)]
pub enum DataKey {
    Admin,
    TokenGbt,
    TokenStable,
    Treasury,
    Oracle,
    FeeBps,
    FcBps,
    Paused,
    MintedGm,
    Mine(u32),
}

/// What initialization installs and the administrator may later adjust.
#[derive(Debug, PartialEq, Eq)]
pub struct EngineConfig {
    /// The only identity that may reconfigure the engine; it also receives
    /// the fees.
    pub admin: Address,
    /// Ledger of the issued asset.
    pub token_gbt: Address,
    /// Ledger of the stable asset deposits are made in.
    pub token_stable: Address,
    /// Contract that distributes net deposits.
    pub treasury: Address,
    /// Contract that quotes the price.
    pub oracle: Address,
    /// Fee on deposits, in basis points.
    pub fee_bps: u32,
    /// Share of the weighted inventory that may be issued against, in basis
    /// points.
    pub fc_bps: u32,
    /// Whether minting is suspended.
    pub paused: bool,
}

/// Everything the engine keeps between operations.
#[derive(Debug)]
pub struct State {
    /// Absent until the engine is initialized.
    pub config: Option<EngineConfig>,
    /// All that has been issued so far, in thousandths of a gram.
    pub minted_gm: i128,
    /// The registered mines, by id.
    pub mines: HashMap<u32, MineData>,
}

/// The configuration that initialization installs: the identities and the
/// two rates as given, a rate of zero like any other, and minting not paused.
pub open spec fn initial_config(
    admin: Address,
    token_gbt: Address,
    token_stable: Address,
    treasury: Address,
    oracle: Address,
    fee_bps: u32,
    fc_bps: u32,
) -> EngineConfig {
    EngineConfig {
        admin,
        token_gbt,
        token_stable,
        treasury,
        oracle,
        fee_bps,
        fc_bps,
        paused: false,
    }
}

/// The record of mine `id`: the registered one, or the absent record where
/// none is registered or `id` is no mine id at all.
pub open spec fn mine_at(mines: Map<u32, MineData>, id: int) -> MineData {
    if 0 <= id <= u32::MAX && mines.contains_key(id as u32) {
        mines[id as u32]
    } else {
        MineData::absent()
    }
}

/// The capacity of the mines with ids below `upto`, added up.
pub open spec fn total_capacity(mines: Map<u32, MineData>, upto: nat, fc_bps: int) -> int
    decreases upto,
{
    if upto == 0 {
        0
    } else {
        total_capacity(mines, (upto - 1) as nat, fc_bps) + capacity_of(
            mine_at(mines, upto - 1),
            fc_bps,
        )
    }
}

/// The capacities of the mines with ids below `upto` can each be computed,
/// and added up in the order of their ids, in 128-bit arithmetic.
pub open spec fn total_in_range(mines: Map<u32, MineData>, upto: nat, fc_bps: int) -> bool
    decreases upto,
{
    upto == 0 || {
        &&& total_in_range(mines, (upto - 1) as nat, fc_bps)
        &&& capacity_in_range(mine_at(mines, upto - 1), fc_bps)
        &&& fits_i128(
            total_capacity(mines, (upto - 1) as nat, fc_bps) + capacity_of(
                mine_at(mines, upto - 1),
                fc_bps,
            ),
        )
    }
}

/// What is in range up to `upto` is in range up to any smaller bound.
pub proof fn total_in_range_below(mines: Map<u32, MineData>, below: nat, upto: nat, fc_bps: int)
    requires
        below <= upto,
        total_in_range(mines, upto, fc_bps),
    ensures
        total_in_range(mines, below, fc_bps),
    decreases upto,
{
    if below < upto {
        total_in_range_below(mines, below, (upto - 1) as nat, fc_bps);
    }
}

impl State {
    /// The commercial factor in force; zero while the engine has none.
    pub open spec fn fc(self) -> int {
        match self.config {
            Some(config) => config.fc_bps as int,
            None => 0,
        }
    }

    /// The fee rate in force; zero while the engine has none.
    pub open spec fn fee(self) -> int {
        match self.config {
            Some(config) => config.fee_bps as int,
            None => 0,
        }
    }

    /// The issuance ceiling over the mines `0..=max_id`.
    pub open spec fn total(self, max_id: u32) -> int {
        total_capacity(self.mines@, (max_id + 1) as nat, self.fc())
    }

    /// The ceiling over the mines `0..=max_id` can be computed.
    pub open spec fn total_computable(self, max_id: u32) -> bool {
        total_in_range(self.mines@, (max_id + 1) as nat, self.fc())
    }

    /// What may still be issued against the mines `0..=max_id`: the ceiling
    /// less what has been issued, and nothing where that is negative.
    pub open spec fn available(self, max_id: u32) -> int {
        clamp_at_zero(self.total(max_id) - self.minted_gm)
    }

    /// The available capacity over the mines `0..=max_id` can be computed
    /// and held in 128 bits.
    pub open spec fn available_computable(self, max_id: u32) -> bool {
        self.total_computable(max_id) && fits_i128(self.available(max_id))
    }

    /// Whether the slot `key` holds a value.  The configuration slots and
    /// the minted total are written together, at initialization.
    pub open spec fn spec_has(self, key: DataKey) -> bool {
        match key {
            DataKey::Mine(id) => self.mines@.contains_key(id),
            _ => self.config is Some,
        }
    }

    /// The state of an engine that has never been touched.
    pub fn new() -> (st: State)
        ensures
            st.config is None,
            st.minted_gm == 0,
            st.mines@ == Map::<u32, MineData>::empty(),
    {
        State { config: None, minted_gm: 0, mines: HashMap::new() }
    }

    /// Whether the slot `key` holds a value.
    pub fn has(&self, key: DataKey) -> (present: bool)
        ensures
            present == self.spec_has(key),
    {
        match key {
            DataKey::Mine(id) => self.mines.contains_key(&id),
            _ => self.config.is_some(),
        }
    }
}

/// The minting engine.  Its operations act on a [`State`] that the caller
/// holds.
pub struct GbtMinterV2;

impl GbtMinterV2 {
    /// Returns the record of mine `id`, or the absent record if none is
    /// registered.
    pub fn get_mine(st: &State, id: u32) -> (m: MineData)
        ensures
            m == mine_at(st.mines@, id as int),
    {
        match st.mines.get(&id) {
            Some(m) => *m,
            None => MineData::absent(),
        }
    }

    /// Returns the capacity that mine `id` contributes under the commercial
    /// factor in force.  A mine that is disabled or not registered
    /// contributes nothing, whatever the state of the engine.
    pub fn mine_capacity_gm(st: &State, id: u32) -> (cap: i128)
        requires
            mine_at(st.mines@, id as int).enabled ==> st.config is Some && capacity_in_range(
                mine_at(st.mines@, id as int),
                st.fc(),
            ),
        ensures
            cap == capacity_of(mine_at(st.mines@, id as int), st.fc()),
    {
        let m = Self::get_mine(st, id);
        if !m.enabled {
            return 0;
        }
        let fc = st.config.as_ref().unwrap().fc_bps;
        capacity_of_mine(&m, fc as i128)
    }

    /// Returns the issuance ceiling over the mines `0..=max_id_inclusive`.
    pub fn total_capacity_gm(st: &State, max_id_inclusive: u32) -> (total: i128)
        requires
            st.config is Some,
            st.total_computable(max_id_inclusive),
        ensures
            total == st.total(max_id_inclusive),
    {
        let fc = st.config.as_ref().unwrap().fc_bps;
        let count: u64 = max_id_inclusive as u64 + 1;
        let mut total: i128 = 0;
        let mut i: u64 = 0;
        while i < count
            invariant
                i <= count,
                count == max_id_inclusive + 1,
                fc == st.fc(),
                total_in_range(st.mines@, count as nat, fc as int),
                total == total_capacity(st.mines@, i as nat, fc as int),
            decreases count - i,
        {
            proof {
                total_in_range_below(st.mines@, (i + 1) as nat, count as nat, fc as int);
            }
            if let Some(m) = st.mines.get(&(i as u32)) {
                if m.enabled {
                    total += capacity_of_mine(m, fc as i128);
                }
            }
            i += 1;
        }
        total
    }

    /// Returns the ceiling as [`GbtMinterV2::total_capacity_gm`] does where
    /// the engine is initialized and 128-bit arithmetic can, and reports
    /// `None` elsewhere.
    pub fn checked_total_capacity_gm(st: &State, max_id_inclusive: u32) -> (total: Option<i128>)
        ensures
            total is Some <==> st.config is Some && st.total_computable(max_id_inclusive),
            total matches Some(t) ==> t == st.total(max_id_inclusive),
    {
        let fc = st.config.as_ref()?.fc_bps;
        let count: u64 = max_id_inclusive as u64 + 1;
        let mut total: i128 = 0;
        let mut i: u64 = 0;
        while i < count
            invariant
                i <= count,
                count == max_id_inclusive + 1,
                fc == st.fc(),
                total_in_range(st.mines@, i as nat, fc as int),
                total == total_capacity(st.mines@, i as nat, fc as int),
            decreases count - i,
        {
            let m = Self::get_mine(st, i as u32);
            let next = match checked_capacity_of_mine(&m, fc as i128) {
                Some(cap) => total.checked_add(cap),
                None => None,
            };
            match next {
                Some(sum) => {
                    total = sum;
                },
                None => {
                    proof {
                        if total_in_range(st.mines@, count as nat, fc as int) {
                            total_in_range_below(
                                st.mines@,
                                (i + 1) as nat,
                                count as nat,
                                fc as int,
                            );
                        }
                    }
                    return None;
                },
            }
            i += 1;
        }
        Some(total)
    }

    /// Returns what may still be issued against the mines
    /// `0..=max_id_inclusive`.
    pub fn available_capacity_gm(st: &State, max_id_inclusive: u32) -> (avail: i128)
        requires
            st.config is Some,
            st.available_computable(max_id_inclusive),
        ensures
            avail == st.available(max_id_inclusive),
            avail == clamp_at_zero(st.total(max_id_inclusive) - st.minted_gm),
            avail >= 0,
    {
        let total = Self::total_capacity_gm(st, max_id_inclusive);
        if total <= st.minted_gm {
            0
        } else {
            total - st.minted_gm
        }
    }

    /// Returns the available capacity as
    /// [`GbtMinterV2::available_capacity_gm`] does where the engine is
    /// initialized and 128-bit arithmetic can, and reports `None` elsewhere.
    pub fn checked_available_capacity_gm(st: &State, max_id_inclusive: u32) -> (avail: Option<
        i128,
    >)
        ensures
            avail is Some <==> st.config is Some && st.available_computable(max_id_inclusive),
            avail matches Some(a) ==> a == st.available(max_id_inclusive) && a >= 0,
    {
        let total = Self::checked_total_capacity_gm(st, max_id_inclusive)?;
        if total <= st.minted_gm {
            Some(0)
        } else {
            total.checked_sub(st.minted_gm)
        }
    }
}

/// Registering `record` for mine `id` moves the ceiling over the mines below
/// `upto` by the difference between the capacity of the new record and that
/// of the old, if `id` is among them, and not at all otherwise.
pub proof fn total_after_registering(
    mines: Map<u32, MineData>,
    id: u32,
    record: MineData,
    upto: nat,
    fc_bps: int,
)
    ensures
        total_capacity(mines.insert(id, record), upto, fc_bps) == total_capacity(
            mines,
            upto,
            fc_bps,
        ) + if id < upto {
            capacity_of(record, fc_bps) - capacity_of(mine_at(mines, id as int), fc_bps)
        } else {
            0
        },
    decreases upto,
{
    if upto > 0 {
        total_after_registering(mines, id, record, (upto - 1) as nat, fc_bps);
        let last = upto - 1;
        if last == id {
            assert(mine_at(mines.insert(id, record), last) == record);
        } else {
            assert(mine_at(mines.insert(id, record), last) == mine_at(mines, last));
        }
    }
}

/// Disabling a mine lowers the ceiling over a range that holds it by exactly
/// the capacity it contributed: a disabled record counts for nothing,
/// whatever its quantities.
pub proof fn total_after_disabling(mines: Map<u32, MineData>, id: u32, upto: nat, fc_bps: int)
    requires
        id < upto,
    ensures
        total_capacity(
            mines.insert(id, MineData { enabled: false, ..mine_at(mines, id as int) }),
            upto,
            fc_bps,
        ) == total_capacity(mines, upto, fc_bps) - capacity_of(mine_at(mines, id as int), fc_bps),
{
    total_after_registering(
        mines,
        id,
        MineData { enabled: false, ..mine_at(mines, id as int) },
        upto,
        fc_bps,
    );
}

/// The available capacity is the ceiling less the minted total where that is
/// not negative, and zero where it is; it is never negative, not even once
/// the ceiling has fallen below what was minted.
pub proof fn available_is_never_negative(st: State, max_id: u32)
    ensures
        st.available(max_id) == if st.total(max_id) - st.minted_gm < 0 {
            0
        } else {
            st.total(max_id) - st.minted_gm
        },
        st.available(max_id) >= 0,
        st.minted_gm >= st.total(max_id) ==> st.available(max_id) == 0,
{
}

/// Mines whose quantities all lie within the signed 64-bit range have a
/// ceiling that can be computed over any range of ids, under any commercial
/// factor the configuration can hold.
pub proof fn total_of_bounded_mines(mines: Map<u32, MineData>, upto: nat, fc_bps: int)
    requires
        forall|id: u32| mines.contains_key(id) ==> (#[trigger] mines[id]).within_64_bits(),
        upto <= u32::MAX + 1,
        0 <= fc_bps <= u32::MAX,
    ensures
        total_in_range(mines, upto, fc_bps),
        -upto * 0x8_0000_0000_0000_0000_0000 <= total_capacity(mines, upto, fc_bps) <= upto
            * 0x8_0000_0000_0000_0000_0000,
    decreases upto,
{
    if upto > 0 {
        total_of_bounded_mines(mines, (upto - 1) as nat, fc_bps);
        capacity_of_bounded_mine(mine_at(mines, upto - 1), fc_bps);
    }
}

} // verus!
