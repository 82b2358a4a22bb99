//! Quoting against the live state, and the mint itself.
//!
//! A mint needs three things from outside the engine: the payer's
//! authorization, a price, and the three calls that move the money.  The
//! engine asks for them one at a time.  [`GbtMinterV2::mint`] takes the run so
//! far and what has just happened, and answers with the run as it now stands
//! and what is to be done next; the caller does that and comes back with the
//! outcome.  The minted total moves only when the last call has succeeded.
//! A run is meant to be taken from its start to its end with no other
//! operation on the state in between, as a ledger transaction does.

use crate::address::Address;
use crate::arith::fits_i128;
use crate::calls::{MintCall, RouteCall, TransferCall};
use crate::gbt_minter_v2::quote::{checked_preview, preview, preview_in_range, quote_for, Preview};
use crate::gbt_minter_v2::state::{EngineConfig, EngineError, GbtMinterV2, State};
use vstd::prelude::*;

verus! {

/// Units of the issued token per thousandth of a gram: the token counts in
/// ten-millionths of a gram.
pub const GBT_UNITS_PER_GM: i128 = 10_000;

/// How far a mint has come.
#[derive(Clone, Copy, Debug, PartialEq, Eq, Structural)]
pub enum MintPhase {
    /// Asked for, nothing decided yet.
    Requested,
    /// Waiting to hear whether the payer authorized the mint.
    Authorizing,
    /// Waiting for the price.
    Pricing,
    /// Waiting for the fee to reach the administrator.
    CollectingFee,
    /// Waiting for the net deposit to reach the treasury.
    Routing,
    /// Waiting for the issued token to be credited to the payer.
    Issuing,
    /// Done: the minted total has grown by the issuance.
    Settled,
    /// Given up, for the reason held; the state is as it was.
    Aborted(EngineError),
}

/// One mint, from request to settlement.
#[derive(Debug, PartialEq, Eq)]
pub struct MintRun {
    /// Who pays and who is credited.
    pub payer: Address,
    /// The deposit offered.
    pub amount_stable_1e7: i128,
    /// The mines `0..=max_id_inclusive` are those counted toward capacity.
    pub max_id_inclusive: u32,
    /// How far the run has come.
    pub phase: MintPhase,
    /// The quote the run is carried out at, once the price is known.
    pub quote: Option<Preview>,
}

/// What the caller reports back to the engine.
#[derive(Clone, Copy, Debug, PartialEq, Eq, Structural)]
pub enum MintEvent {
    /// The mint is asked for.
    Start,
    /// The payer's authorization was verified.
    AuthGranted,
    /// The payer's authorization is missing or invalid.
    AuthDenied,
    /// The oracle quoted this price.
    PriceQuoted(i128),
    /// The call last asked for succeeded.
    CallSucceeded,
    /// The call last asked for failed.
    CallFailed,
}

/// What the engine asks the caller to do next.
#[derive(Debug, PartialEq, Eq)]
pub enum MintAction {
    /// Verify that `who` authorized the mint.
    RequireAuth { who: Address },
    /// Ask `oracle` for the price.
    GetPrice { oracle: Address },
    /// Pay the fee.
    Transfer(TransferCall),
    /// Route the net deposit.
    Route(RouteCall),
    /// Credit the issued token.
    Mint(MintCall),
    /// Nothing more: the mint is settled.
    Done,
    /// Nothing more: the mint is given up, and nothing it did may stand.
    Abort(EngineError),
}

/// One step of a mint: the state, the run and the request it leaves.
pub struct MintStep {
    pub state: State,
    pub run: MintRun,
    pub action: MintAction,
}

impl State {
    /// Whether minting is suspended.  An engine that was never initialized
    /// has nothing suspended.
    pub open spec fn paused(self) -> bool {
        self.config matches Some(config) && config.paused
    }

    /// The quote for `amount` at `price` against the mines `0..=max_id` can
    /// be computed.
    pub open spec fn quote_computable(self, amount: int, price: int, max_id: u32) -> bool {
        self.available_computable(max_id) && preview_in_range(
            amount,
            price,
            self.available(max_id),
            self.fee(),
        )
    }

    /// The quote for `amount` at `price` against the mines `0..=max_id`.
    pub open spec fn quote(self, amount: int, price: int, max_id: u32) -> Preview {
        quote_for(amount, price, self.available(max_id), self.fee())
    }
}

/// The issuance of a quote in units of the issued token.
pub open spec fn units_of(quote: Preview) -> int {
    quote.gbt_out_gm * GBT_UNITS_PER_GM
}

impl MintRun {
    /// The run `self`, given up for `reason`.
    pub open spec fn aborted(self, reason: EngineError) -> MintRun {
        MintRun { phase: MintPhase::Aborted(reason), ..self }
    }

    /// The run `self`, moved on to `phase`.
    pub open spec fn at(self, phase: MintPhase) -> MintRun {
        MintRun { phase, ..self }
    }

    /// A run past pricing holds a quote with a positive issuance that the
    /// capacity over its mines still has room for.
    pub open spec fn within_capacity(self, st: State) -> bool {
        (self.phase is CollectingFee || self.phase is Routing || self.phase is Issuing) ==> {
            &&& self.quote matches Some(q)
            &&& q.gbt_out_gm > 0
            &&& st.minted_gm + q.gbt_out_gm <= st.total(self.max_id_inclusive)
        }
    }

    /// A new run: `payer` offers `amount_stable_1e7`, to be minted against
    /// the mines `0..=max_id_inclusive`.
    pub fn new(payer: Address, amount_stable_1e7: i128, max_id_inclusive: u32) -> (run: MintRun)
        ensures
            run == (MintRun {
                payer,
                amount_stable_1e7,
                max_id_inclusive,
                phase: MintPhase::Requested,
                quote: None,
            }),
    {
        MintRun {
            payer,
            amount_stable_1e7,
            max_id_inclusive,
            phase: MintPhase::Requested,
            quote: None,
        }
    }
}

/// Leaves the state as it is, with the run and the request given.
pub open spec fn carry_on(st: State, next: (MintRun, MintAction)) -> MintStep {
    MintStep { state: st, run: next.0, action: next.1 }
}

/// The step that gives the run up for `reason` and leaves the state alone.
pub open spec fn give_up(st: State, run: MintRun, reason: EngineError) -> MintStep {
    MintStep { state: st, run: run.aborted(reason), action: MintAction::Abort(reason) }
}

/// Asks for the issued token to be credited to the payer.
pub open spec fn ask_issue(config: EngineConfig, run: MintRun) -> (MintRun, MintAction) {
    (
        run.at(MintPhase::Issuing),
        MintAction::Mint(
            MintCall {
                token: config.token_gbt,
                to: run.payer,
                amount: units_of(run.quote->0) as i128,
            },
        ),
    )
}

/// Asks for the net deposit to be routed, or, where there is none, goes on
/// to the issuance.
pub open spec fn ask_route(config: EngineConfig, run: MintRun) -> (MintRun, MintAction) {
    if run.quote->0.net_stable_1e7 > 0 {
        (
            run.at(MintPhase::Routing),
            MintAction::Route(
                RouteCall {
                    treasury: config.treasury,
                    token: config.token_stable,
                    from: run.payer,
                    amount: run.quote->0.net_stable_1e7,
                },
            ),
        )
    } else {
        ask_issue(config, run)
    }
}

/// Asks for the fee to be paid to the administrator, or, where there is
/// none, goes on to the routing.
pub open spec fn ask_fee(config: EngineConfig, run: MintRun) -> (MintRun, MintAction) {
    if run.quote->0.fee_stable_1e7 > 0 {
        (
            run.at(MintPhase::CollectingFee),
            MintAction::Transfer(
                TransferCall {
                    token: config.token_stable,
                    from: run.payer,
                    to: config.admin,
                    amount: run.quote->0.fee_stable_1e7,
                },
            ),
        )
    } else {
        ask_route(config, run)
    }
}

/// The step that a priced run takes: given up if the price buys less than
/// the minimum, otherwise on to the first of the calls.
pub open spec fn price_run(st: State, run: MintRun, price: i128) -> MintStep {
    let q = st.quote(run.amount_stable_1e7 as int, price as int, run.max_id_inclusive);
    if !q.meets_min || q.gbt_out_gm <= 0 {
        give_up(st, run, EngineError::BelowMinimumFailure)
    } else {
        carry_on(st, ask_fee(st.config->0, MintRun { quote: Some(q), ..run }))
    }
}

/// The step that settles the run: the minted total grows by the issuance.
pub open spec fn settle(st: State, run: MintRun) -> MintStep {
    MintStep {
        state: State { minted_gm: (st.minted_gm + run.quote->0.gbt_out_gm) as i128, ..st },
        run: run.at(MintPhase::Settled),
        action: MintAction::Done,
    }
}

/// What a mint does next: the gates in their order, pause before
/// authorization before price, then the three calls in theirs, fee before
/// routing before issuance, then the settlement.  Anything other than the
/// answer that the run is waiting for, a failed call included, gives the run
/// up; a run that has ended stays as it ended.
pub open spec fn mint_step(st: State, run: MintRun, event: MintEvent) -> MintStep {
    match run.phase {
        MintPhase::Requested => match event {
            MintEvent::Start => if st.paused() {
                give_up(st, run, EngineError::PausedFailure)
            } else {
                MintStep {
                    state: st,
                    run: run.at(MintPhase::Authorizing),
                    action: MintAction::RequireAuth { who: run.payer },
                }
            },
            _ => give_up(st, run, EngineError::CollaboratorFailure),
        },
        MintPhase::Authorizing => match event {
            MintEvent::AuthGranted => MintStep {
                state: st,
                run: run.at(MintPhase::Pricing),
                action: MintAction::GetPrice { oracle: st.config->0.oracle },
            },
            MintEvent::AuthDenied => give_up(st, run, EngineError::AuthorizationFailure),
            _ => give_up(st, run, EngineError::CollaboratorFailure),
        },
        MintPhase::Pricing => match event {
            MintEvent::PriceQuoted(price) => price_run(st, run, price),
            _ => give_up(st, run, EngineError::CollaboratorFailure),
        },
        MintPhase::CollectingFee => match event {
            MintEvent::CallSucceeded if run.quote is Some => carry_on(
                st,
                ask_route(st.config->0, run),
            ),
            _ => give_up(st, run, EngineError::CollaboratorFailure),
        },
        MintPhase::Routing => match event {
            MintEvent::CallSucceeded if run.quote is Some => carry_on(
                st,
                ask_issue(st.config->0, run),
            ),
            _ => give_up(st, run, EngineError::CollaboratorFailure),
        },
        MintPhase::Issuing => match event {
            MintEvent::CallSucceeded if run.quote is Some => settle(st, run),
            _ => give_up(st, run, EngineError::CollaboratorFailure),
        },
        MintPhase::Settled => MintStep { state: st, run, action: MintAction::Done },
        MintPhase::Aborted(reason) => MintStep { state: st, run, action: MintAction::Abort(reason) },
    }
}

/// The step can be taken: the engine is initialized where the step reads its
/// configuration, and the numbers the step computes fit in 128 bits.
pub open spec fn mint_step_computable(st: State, run: MintRun, event: MintEvent) -> bool {
    match (run.phase, event) {
        (MintPhase::Authorizing, MintEvent::AuthGranted) => st.config is Some,
        (MintPhase::Pricing, MintEvent::PriceQuoted(price)) => {
            &&& st.config is Some
            &&& st.quote_computable(
                run.amount_stable_1e7 as int,
                price as int,
                run.max_id_inclusive,
            )
            &&& fits_i128(
                units_of(
                    st.quote(run.amount_stable_1e7 as int, price as int, run.max_id_inclusive),
                ),
            )
        },
        (MintPhase::CollectingFee, MintEvent::CallSucceeded) => run.quote matches Some(q) ==> {
            &&& st.config is Some
            &&& fits_i128(units_of(q))
        },
        (MintPhase::Routing, MintEvent::CallSucceeded) => run.quote matches Some(q) ==> {
            &&& st.config is Some
            &&& fits_i128(units_of(q))
        },
        (MintPhase::Issuing, MintEvent::CallSucceeded) => run.quote matches Some(q) ==> fits_i128(
            st.minted_gm + q.gbt_out_gm,
        ),
        _ => true,
    }
}

impl GbtMinterV2 {
    /// Quotes a deposit of `amount_stable_1e7` at `price_1e7` against the
    /// fee rate in force and the capacity that the mines
    /// `0..=max_id_inclusive` leave available.  Nothing is changed.
    pub fn preview_mint(
        st: &State,
        amount_stable_1e7: i128,
        price_1e7: i128,
        max_id_inclusive: u32,
    ) -> (p: Preview)
        requires
            st.config is Some,
            st.quote_computable(amount_stable_1e7 as int, price_1e7 as int, max_id_inclusive),
        ensures
            p.is_quote_for(
                amount_stable_1e7 as int,
                price_1e7 as int,
                st.available(max_id_inclusive),
                st.fee(),
            ),
            p == st.quote(amount_stable_1e7 as int, price_1e7 as int, max_id_inclusive),
    {
        let fee_bps = st.config.as_ref().unwrap().fee_bps;
        let avail = Self::available_capacity_gm(st, max_id_inclusive);
        preview(amount_stable_1e7, price_1e7, avail, fee_bps)
    }

    /// Quotes as [`GbtMinterV2::preview_mint`] does where the engine is
    /// initialized and 128-bit arithmetic can, and reports `None` elsewhere.
    pub fn checked_preview_mint(
        st: &State,
        amount_stable_1e7: i128,
        price_1e7: i128,
        max_id_inclusive: u32,
    ) -> (p: Option<Preview>)
        ensures
            p is Some <==> st.config is Some && st.quote_computable(
                amount_stable_1e7 as int,
                price_1e7 as int,
                max_id_inclusive,
            ),
            p matches Some(q) ==> q == st.quote(
                amount_stable_1e7 as int,
                price_1e7 as int,
                max_id_inclusive,
            ),
    {
        let fee_bps = st.config.as_ref()?.fee_bps;
        let avail = Self::checked_available_capacity_gm(st, max_id_inclusive)?;
        let p = checked_preview(amount_stable_1e7, price_1e7, avail, fee_bps)?;
        Some(p)
    }

    /// Tells whether [`GbtMinterV2::mint`] can take the step from `run` on
    /// `event`.
    pub fn mint_ready(st: &State, run: &MintRun, event: MintEvent) -> (ready: bool)
        ensures
            ready == mint_step_computable(*st, *run, event),
    {
        match (run.phase, event) {
            (MintPhase::Authorizing, MintEvent::AuthGranted) => st.config.is_some(),
            (MintPhase::Pricing, MintEvent::PriceQuoted(price)) => {
                match Self::checked_preview_mint(
                    st,
                    run.amount_stable_1e7,
                    price,
                    run.max_id_inclusive,
                ) {
                    Some(q) => q.gbt_out_gm.checked_mul(GBT_UNITS_PER_GM).is_some(),
                    None => false,
                }
            },
            (MintPhase::CollectingFee, MintEvent::CallSucceeded)
            | (MintPhase::Routing, MintEvent::CallSucceeded) => match run.quote {
                Some(q) => st.config.is_some() && q.gbt_out_gm.checked_mul(
                    GBT_UNITS_PER_GM,
                ).is_some(),
                None => true,
            },
            (MintPhase::Issuing, MintEvent::CallSucceeded) => match run.quote {
                Some(q) => st.minted_gm.checked_add(q.gbt_out_gm).is_some(),
                None => true,
            },
            _ => true,
        }
    }

    /// Takes one step of a mint: `run` is the mint so far, `event` what has
    /// happened since the engine last asked for something.
    pub fn mint(st: &mut State, run: MintRun, event: MintEvent) -> (next: (MintRun, MintAction))
        requires
            mint_step_computable(*old(st), run, event),
        ensures
            carry_on(*final(st), next) == mint_step(*old(st), run, event),
    {
        match (run.phase, event) {
            (MintPhase::Requested, MintEvent::Start) => {
                let paused = match &st.config {
                    Some(config) => config.paused,
                    None => false,
                };
                if paused {
                    Self::abort(run, EngineError::PausedFailure)
                } else {
                    let who = run.payer.clone();
                    (MintRun { phase: MintPhase::Authorizing, ..run }, MintAction::RequireAuth { who })
                }
            },
            (MintPhase::Authorizing, MintEvent::AuthGranted) => {
                let oracle = st.config.as_ref().unwrap().oracle.clone();
                (MintRun { phase: MintPhase::Pricing, ..run }, MintAction::GetPrice { oracle })
            },
            (MintPhase::Authorizing, MintEvent::AuthDenied) => Self::abort(
                run,
                EngineError::AuthorizationFailure,
            ),
            (MintPhase::Pricing, MintEvent::PriceQuoted(price)) => {
                let q = Self::preview_mint(st, run.amount_stable_1e7, price, run.max_id_inclusive);
                if !q.meets_min || q.gbt_out_gm <= 0 {
                    Self::abort(run, EngineError::BelowMinimumFailure)
                } else {
                    let config = st.config.as_ref().unwrap();
                    Self::fee_or_onward(config, MintRun { quote: Some(q), ..run }, q)
                }
            },
            (MintPhase::CollectingFee, MintEvent::CallSucceeded) => match run.quote {
                Some(q) => Self::route_or_onward(st.config.as_ref().unwrap(), run, q),
                None => Self::abort(run, EngineError::CollaboratorFailure),
            },
            (MintPhase::Routing, MintEvent::CallSucceeded) => match run.quote {
                Some(q) => Self::issue(st.config.as_ref().unwrap(), run, q),
                None => Self::abort(run, EngineError::CollaboratorFailure),
            },
            (MintPhase::Issuing, MintEvent::CallSucceeded) => match run.quote {
                Some(q) => {
                    st.minted_gm = st.minted_gm + q.gbt_out_gm;
                    (MintRun { phase: MintPhase::Settled, ..run }, MintAction::Done)
                },
                None => Self::abort(run, EngineError::CollaboratorFailure),
            },
            (MintPhase::Settled, _) => (run, MintAction::Done),
            (MintPhase::Aborted(reason), _) => (run, MintAction::Abort(reason)),
            _ => Self::abort(run, EngineError::CollaboratorFailure),
        }
    }

    fn abort(run: MintRun, reason: EngineError) -> (next: (MintRun, MintAction))
        ensures
            next.0 == run.aborted(reason),
            next.1 == MintAction::Abort(reason),
    {
        (MintRun { phase: MintPhase::Aborted(reason), ..run }, MintAction::Abort(reason))
    }

    fn issue(config: &EngineConfig, run: MintRun, q: Preview) -> (next: (MintRun, MintAction))
        requires
            run.quote == Some(q),
            fits_i128(units_of(q)),
        ensures
            next == ask_issue(*config, run),
    {
        let token = config.token_gbt.clone();
        let to = run.payer.clone();
        let amount = q.gbt_out_gm * GBT_UNITS_PER_GM;
        (
            MintRun { phase: MintPhase::Issuing, ..run },
            MintAction::Mint(MintCall { token, to, amount }),
        )
    }

    fn route_or_onward(config: &EngineConfig, run: MintRun, q: Preview) -> (next: (
        MintRun,
        MintAction,
    ))
        requires
            run.quote == Some(q),
            fits_i128(units_of(q)),
        ensures
            next == ask_route(*config, run),
    {
        if q.net_stable_1e7 > 0 {
            let treasury = config.treasury.clone();
            let token = config.token_stable.clone();
            let from = run.payer.clone();
            (
                MintRun { phase: MintPhase::Routing, ..run },
                MintAction::Route(RouteCall { treasury, token, from, amount: q.net_stable_1e7 }),
            )
        } else {
            Self::issue(config, run, q)
        }
    }

    fn fee_or_onward(config: &EngineConfig, run: MintRun, q: Preview) -> (next: (
        MintRun,
        MintAction,
    ))
        requires
            run.quote == Some(q),
            fits_i128(units_of(q)),
        ensures
            next == ask_fee(*config, run),
    {
        if q.fee_stable_1e7 > 0 {
            let token = config.token_stable.clone();
            let to = config.admin.clone();
            let from = run.payer.clone();
            (
                MintRun { phase: MintPhase::CollectingFee, ..run },
                MintAction::Transfer(
                    TransferCall { token, from, to, amount: q.fee_stable_1e7 },
                ),
            )
        } else {
            Self::route_or_onward(config, run, q)
        }
    }
}

/// A step of a mint touches neither the configuration nor the mines, and it
/// moves the minted total only when it settles the run.
pub proof fn mint_step_moves_only_the_minted_total(st: State, run: MintRun, event: MintEvent)
    ensures
        mint_step(st, run, event).state.config == st.config,
        mint_step(st, run, event).state.mines == st.mines,
        mint_step(st, run, event).state.minted_gm != st.minted_gm ==> run.phase is Issuing
            && mint_step(st, run, event).run.phase is Settled,
        mint_step(st, run, event).run.phase is Aborted ==> mint_step(st, run, event).state == st,
{
}

/// A paused engine takes no mint beyond its request, and an unauthorized
/// payer none beyond the authorization.
pub proof fn mint_gates_come_first(st: State, run: MintRun)
    ensures
        run.phase is Requested && st.paused() ==> mint_step(st, run, MintEvent::Start)
            == give_up(st, run, EngineError::PausedFailure),
        run.phase is Authorizing ==> mint_step(st, run, MintEvent::AuthDenied) == give_up(
            st,
            run,
            EngineError::AuthorizationFailure,
        ),
{
}

/// The issuance never outruns the capacity.  A run that holds a quote within
/// the capacity still does after any step, and the step that settles it
/// raises the minted total by exactly the issuance quoted, which is positive,
/// to no more than the ceiling over the mines of the run.
pub proof fn mint_step_stays_within_capacity(st: State, run: MintRun, event: MintEvent)
    requires
        run.within_capacity(st),
        mint_step_computable(st, run, event),
    ensures
        mint_step(st, run, event).run.within_capacity(mint_step(st, run, event).state),
        mint_step(st, run, event).state.total(run.max_id_inclusive) == st.total(
            run.max_id_inclusive,
        ),
        mint_step(st, run, event).state.minted_gm >= st.minted_gm,
        run.phase is Issuing && mint_step(st, run, event).run.phase is Settled ==> {
            &&& mint_step(st, run, event).state.minted_gm == st.minted_gm + run.quote->0.gbt_out_gm
            &&& mint_step(st, run, event).state.minted_gm > st.minted_gm
            &&& mint_step(st, run, event).state.minted_gm <= st.total(run.max_id_inclusive)
        },
{
}

/// Where a run stands once the request has been made, the authorization
/// granted, `price` quoted, and every call asked for since has succeeded.
pub open spec fn unhindered(st: State, run: MintRun, price: i128) -> MintStep {
    let asked = mint_step(st, run, MintEvent::Start);
    let granted = mint_step(asked.state, asked.run, MintEvent::AuthGranted);
    let priced = mint_step(granted.state, granted.run, MintEvent::PriceQuoted(price));
    let first = mint_step(priced.state, priced.run, MintEvent::CallSucceeded);
    let second = mint_step(first.state, first.run, MintEvent::CallSucceeded);
    mint_step(second.state, second.run, MintEvent::CallSucceeded)
}

/// A mint that nothing outside the engine hinders ends in one of three ways.
/// On a paused engine it is refused as paused.  At a price at which the
/// deposit buys less than a gram, or with no capacity left, it is refused as
/// below the minimum.  Otherwise it settles: the minted total has grown by the
/// issuance quoted, and is within the ceiling.  A refusal leaves the state as
/// it was.
pub proof fn unhindered_mint_settles_or_is_refused(st: State, run: MintRun, price: i128)
    requires
        run.phase is Requested,
        st.config is Some,
        st.quote_computable(run.amount_stable_1e7 as int, price as int, run.max_id_inclusive),
    ensures
        ({
            let end = unhindered(st, run, price);
            let q = st.quote(run.amount_stable_1e7 as int, price as int, run.max_id_inclusive);
            if st.paused() {
                end == give_up(st, run, EngineError::PausedFailure)
            } else if !q.meets_min {
                end == give_up(st, run, EngineError::BelowMinimumFailure)
            } else {
                &&& end.run.phase is Settled
                &&& end.action == MintAction::Done
                &&& end.run.quote == Some(q)
                &&& end.state.config == st.config
                &&& end.state.mines == st.mines
                &&& end.state.minted_gm == st.minted_gm + q.gbt_out_gm
                &&& st.minted_gm < end.state.minted_gm <= st.total(run.max_id_inclusive)
            }
        }),
{
}

} // verus!
