//! Initialization and the operations reserved to the administrator.
//!
//! Initialization names its administrator, who must have authorized the
//! call; that is for the embedding program to verify before it calls.  Each
//! reserved operation is told in `signer` whose authorization came with the
//! call.  It goes ahead only if that is the administrator, and otherwise
//! refuses and leaves the state as it found it.  An engine that was never
//! initialized has no administrator, and refuses them all.

use crate::address::Address;
use crate::gbt_minter_v2::mine::MineData;
use crate::gbt_minter_v2::state::{
    initial_config,
    mine_at,
    EngineConfig,
    EngineError,
    GbtMinterV2,
    State,
};
use vstd::prelude::*;

verus! {

broadcast use vstd::std_specs::hash::group_hash_axioms;

impl State {
    /// Whether `who` is the administrator of an initialized engine.
    pub open spec fn admin_is(self, who: Address) -> bool {
        self.config matches Some(config) && config.admin@ == who@
    }

    /// The state that a call of `init` leaves behind, `requested` being the
    /// configuration the call asks for.  An engine is initialized once: on
    /// an initialized engine the call changes nothing.  On a fresh one it
    /// installs the configuration and starts the minted total at zero.
    pub open spec fn after_init(self, requested: EngineConfig) -> State {
        if self.config is None {
            State { config: Some(requested), minted_gm: 0, mines: self.mines }
        } else {
            self
        }
    }
}

impl GbtMinterV2 {
    /// Initializes the engine, once.  A second call changes nothing.
    pub fn init(
        st: &mut State,
        admin: Address,
        token_gbt: Address,
        token_stable: Address,
        treasury: Address,
        oracle: Address,
        fee_bps: u32,
        fc_bps: u32,
    )
        ensures
            *final(st) == old(st).after_init(
                initial_config(admin, token_gbt, token_stable, treasury, oracle, fee_bps, fc_bps),
            ),
    {
        if st.config.is_some() {
            return ;
        }
        st.config = Some(
            EngineConfig {
                admin,
                token_gbt,
                token_stable,
                treasury,
                oracle,
                fee_bps,
                fc_bps,
                paused: false,
            },
        );
        st.minted_gm = 0;
    }

    /// Sets the commercial factor.
    pub fn set_fc_bps(st: &mut State, signer: &Address, fc_bps: u32) -> (done: Result<
        (),
        EngineError,
    >)
        ensures
            final(st).minted_gm == old(st).minted_gm,
            final(st).mines == old(st).mines,
            old(st).admin_is(*signer) ==> done is Ok && final(st).config == Some(
                EngineConfig { fc_bps, ..old(st).config->0 },
            ),
            !old(st).admin_is(*signer) ==> done == Err::<(), EngineError>(
                EngineError::AuthorizationFailure,
            ) && final(st).config == old(st).config,
    {
        match &mut st.config {
            Some(config) => {
                if !signer.same_as(&config.admin) {
                    return Err(EngineError::AuthorizationFailure);
                }
                config.fc_bps = fc_bps;
                Ok(())
            },
            None => Err(EngineError::AuthorizationFailure),
        }
    }

    /// Sets the fee rate.
    pub fn set_fee_bps(st: &mut State, signer: &Address, fee_bps: u32) -> (done: Result<
        (),
        EngineError,
    >)
        ensures
            final(st).minted_gm == old(st).minted_gm,
            final(st).mines == old(st).mines,
            old(st).admin_is(*signer) ==> done is Ok && final(st).config == Some(
                EngineConfig { fee_bps, ..old(st).config->0 },
            ),
            !old(st).admin_is(*signer) ==> done == Err::<(), EngineError>(
                EngineError::AuthorizationFailure,
            ) && final(st).config == old(st).config,
    {
        match &mut st.config {
            Some(config) => {
                if !signer.same_as(&config.admin) {
                    return Err(EngineError::AuthorizationFailure);
                }
                config.fee_bps = fee_bps;
                Ok(())
            },
            None => Err(EngineError::AuthorizationFailure),
        }
    }

    /// Suspends or resumes minting.
    pub fn set_paused(st: &mut State, signer: &Address, paused: bool) -> (done: Result<
        (),
        EngineError,
    >)
        ensures
            final(st).minted_gm == old(st).minted_gm,
            final(st).mines == old(st).mines,
            old(st).admin_is(*signer) ==> done is Ok && final(st).config == Some(
                EngineConfig { paused, ..old(st).config->0 },
            ),
            !old(st).admin_is(*signer) ==> done == Err::<(), EngineError>(
                EngineError::AuthorizationFailure,
            ) && final(st).config == old(st).config,
    {
        match &mut st.config {
            Some(config) => {
                if !signer.same_as(&config.admin) {
                    return Err(EngineError::AuthorizationFailure);
                }
                config.paused = paused;
                Ok(())
            },
            None => Err(EngineError::AuthorizationFailure),
        }
    }

    /// Registers mine `id` with the given record, replacing whatever record
    /// it had.  Mines are never removed; one is retired by disabling it.
    pub fn upsert_mine(
        st: &mut State,
        signer: &Address,
        id: u32,
        inferidos_gm: i128,
        indicados_gm: i128,
        medidos_gm: i128,
        probables_gm: i128,
        probadas_gm: i128,
        enabled: bool,
    ) -> (done: Result<(), EngineError>)
        ensures
            final(st).config == old(st).config,
            final(st).minted_gm == old(st).minted_gm,
            old(st).admin_is(*signer) ==> done is Ok && final(st).mines@ == old(st).mines@.insert(
                id,
                MineData {
                    inferidos_gm,
                    indicados_gm,
                    medidos_gm,
                    probables_gm,
                    probadas_gm,
                    enabled,
                },
            ),
            !old(st).admin_is(*signer) ==> done == Err::<(), EngineError>(
                EngineError::AuthorizationFailure,
            ) && final(st).mines == old(st).mines,
    {
        let allowed = match &st.config {
            Some(config) => signer.same_as(&config.admin),
            None => false,
        };
        if !allowed {
            return Err(EngineError::AuthorizationFailure);
        }
        let m = MineData {
            inferidos_gm,
            indicados_gm,
            medidos_gm,
            probables_gm,
            probadas_gm,
            enabled,
        };
        st.mines.insert(id, m);
        Ok(())
    }
}

/// Initializing twice is initializing once: after a first call, a second
/// one, whatever it asks for, leaves the configuration that the first one
/// installed.
pub proof fn init_twice_is_init_once(fresh: State, first: EngineConfig, again: EngineConfig)
    requires
        fresh.config is None,
    ensures
        fresh.after_init(first).config == Some(first),
        fresh.after_init(first).after_init(again) == fresh.after_init(first),
{
}

/// The configuration that initialization installs holds the identities and
/// the rates it was given, whatever they are.
pub proof fn initial_config_keeps_arguments(
    admin: Address,
    token_gbt: Address,
    token_stable: Address,
    treasury: Address,
    oracle: Address,
    fee_bps: u32,
    fc_bps: u32,
)
    ensures
        ({
            let c = initial_config(
                admin,
                token_gbt,
                token_stable,
                treasury,
                oracle,
                fee_bps,
                fc_bps,
            );
            &&& c.admin == admin
            &&& c.token_gbt == token_gbt
            &&& c.token_stable == token_stable
            &&& c.treasury == treasury
            &&& c.oracle == oracle
            &&& !c.paused
            &&& c.fee_bps == fee_bps
            &&& c.fc_bps == fc_bps
        }),
{
}

/// A record that was registered is the record that is read back, and
/// registering it disturbs the record of no other mine.
pub proof fn registered_mine_is_read_back(
    mines: Map<u32, MineData>,
    id: u32,
    record: MineData,
    other: u32,
)
    ensures
        mine_at(mines.insert(id, record), id as int) == record,
        other != id ==> mine_at(mines.insert(id, record), other as int) == mine_at(
            mines,
            other as int,
        ),
{
}

} // verus!
