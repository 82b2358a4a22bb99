use alternun_contracts::address::Address;
use alternun_contracts::calls::{MintCall, RouteCall, TransferCall};
use alternun_contracts::gbt_minter_v2::mint::{
    MintAction, MintEvent, MintPhase, MintRun, GBT_UNITS_PER_GM,
};
use alternun_contracts::gbt_minter_v2::quote::Preview;
use alternun_contracts::gbt_minter_v2::state::{EngineError, GbtMinterV2, State};

fn addr(text: &str) -> Address {
    Address::new(text)
}

/// An engine with a 2 % fee and one mine worth 480 grams of capacity.
fn engine(fee_bps: u32) -> State {
    let mut st = State::new();
    let admin = addr("GADMIN");
    GbtMinterV2::init(
        &mut st,
        addr("GADMIN"),
        addr("CGBT"),
        addr("CSTABLE"),
        addr("CTREASURY"),
        addr("CORACLE"),
        fee_bps,
        8000,
    );
    assert_eq!(GbtMinterV2::upsert_mine(&mut st, &admin, 0, 0, 0, 1_000_000, 0, 0, true), Ok(()));
    st
}

fn step(st: &mut State, run: MintRun, event: MintEvent) -> (MintRun, MintAction) {
    assert!(GbtMinterV2::mint_ready(st, &run, event));
    GbtMinterV2::mint(st, run, event)
}

/// Takes a new run up to the point where the price is awaited.
fn up_to_pricing(st: &mut State, amount: i128) -> MintRun {
    let run = MintRun::new(addr("GPAYER"), amount, 0);
    let (run, action) = step(st, run, MintEvent::Start);
    assert_eq!(action, MintAction::RequireAuth { who: addr("GPAYER") });
    assert_eq!(run.phase, MintPhase::Authorizing);
    let (run, action) = step(st, run, MintEvent::AuthGranted);
    assert_eq!(action, MintAction::GetPrice { oracle: addr("CORACLE") });
    assert_eq!(run.phase, MintPhase::Pricing);
    assert_eq!(run.quote, None);
    run
}

#[test]
fn the_token_counts_in_ten_millionths_of_a_gram() {
    assert_eq!(GBT_UNITS_PER_GM, 10_000);
}

#[test]
fn a_new_run_is_a_request() {
    let run = MintRun::new(addr("GPAYER"), 77, 3);
    assert_eq!(
        run,
        MintRun {
            payer: addr("GPAYER"),
            amount_stable_1e7: 77,
            max_id_inclusive: 3,
            phase: MintPhase::Requested,
            quote: None,
        }
    );
}

#[test]
fn a_mint_runs_from_request_to_settlement() {
    let mut st = engine(200);
    // 100 units at price 2.5 with a 2 % fee: 2 units of fee, 98 net, 39.2 grams
    let run = up_to_pricing(&mut st, 100_0000000);
    let (run, action) = step(&mut st, run, MintEvent::PriceQuoted(2_5000000));
    let quote = Preview {
        gbt_out_gm: 39_200,
        net_stable_1e7: 98_0000000,
        fee_stable_1e7: 2_0000000,
        price_1e7: 2_5000000,
        meets_min: true,
        capacity_left_gm: 480_000 - 39_200,
    };
    assert_eq!(run.quote, Some(quote));
    assert_eq!(run.phase, MintPhase::CollectingFee);
    assert_eq!(
        action,
        MintAction::Transfer(TransferCall {
            token: addr("CSTABLE"),
            from: addr("GPAYER"),
            to: addr("GADMIN"),
            amount: 2_0000000,
        })
    );
    assert_eq!(st.minted_gm, 0);
    let (run, action) = step(&mut st, run, MintEvent::CallSucceeded);
    assert_eq!(run.phase, MintPhase::Routing);
    assert_eq!(
        action,
        MintAction::Route(RouteCall {
            treasury: addr("CTREASURY"),
            token: addr("CSTABLE"),
            from: addr("GPAYER"),
            amount: 98_0000000,
        })
    );
    assert_eq!(st.minted_gm, 0);
    let (run, action) = step(&mut st, run, MintEvent::CallSucceeded);
    assert_eq!(run.phase, MintPhase::Issuing);
    assert_eq!(
        action,
        MintAction::Mint(MintCall { token: addr("CGBT"), to: addr("GPAYER"), amount: 392_000_000 })
    );
    assert_eq!(st.minted_gm, 0);
    let (run, action) = step(&mut st, run, MintEvent::CallSucceeded);
    assert_eq!(run.phase, MintPhase::Settled);
    assert_eq!(action, MintAction::Done);
    assert_eq!(st.minted_gm, 39_200);
    assert_eq!(GbtMinterV2::available_capacity_gm(&st, 0), 480_000 - 39_200);
    assert_eq!(run.quote, Some(quote));
    assert_eq!(run.payer, addr("GPAYER"));
    // a settled run stays settled and mints nothing more
    let (run, action) = step(&mut st, run, MintEvent::CallSucceeded);
    assert_eq!(run.phase, MintPhase::Settled);
    assert_eq!(action, MintAction::Done);
    assert_eq!(st.minted_gm, 39_200);
}

#[test]
fn without_a_fee_the_run_goes_straight_to_the_routing() {
    let mut st = engine(0);
    let run = up_to_pricing(&mut st, 10_0000000);
    let (run, action) = step(&mut st, run, MintEvent::PriceQuoted(2_0000000));
    assert_eq!(run.phase, MintPhase::Routing);
    assert_eq!(
        action,
        MintAction::Route(RouteCall {
            treasury: addr("CTREASURY"),
            token: addr("CSTABLE"),
            from: addr("GPAYER"),
            amount: 10_0000000,
        })
    );
    let (run, action) = step(&mut st, run, MintEvent::CallSucceeded);
    assert_eq!(
        action,
        MintAction::Mint(MintCall { token: addr("CGBT"), to: addr("GPAYER"), amount: 50_000_000 })
    );
    let (run, action) = step(&mut st, run, MintEvent::CallSucceeded);
    assert_eq!(action, MintAction::Done);
    assert_eq!(run.phase, MintPhase::Settled);
    assert_eq!(st.minted_gm, 5_000);
}

#[test]
fn successive_mints_use_the_capacity_up_and_never_exceed_it() {
    let mut st = engine(0);
    let mut minted = 0;
    // each deposit would buy 200 grams; 480 grams are there
    for expected in [200_000i128, 200_000, 80_000] {
        let run = up_to_pricing(&mut st, 400_0000000);
        let (run, _) = step(&mut st, run, MintEvent::PriceQuoted(2_0000000));
        assert_eq!(run.quote.map(|q| q.gbt_out_gm), Some(expected));
        let (run, _) = step(&mut st, run, MintEvent::CallSucceeded);
        let (run, action) = step(&mut st, run, MintEvent::CallSucceeded);
        assert_eq!(action, MintAction::Done);
        assert_eq!(run.phase, MintPhase::Settled);
        minted += expected;
        assert_eq!(st.minted_gm, minted);
        assert!(st.minted_gm <= GbtMinterV2::total_capacity_gm(&st, 0));
    }
    assert_eq!(st.minted_gm, 480_000);
    assert_eq!(GbtMinterV2::available_capacity_gm(&st, 0), 0);
    // nothing is left: the next mint is refused
    let run = up_to_pricing(&mut st, 400_0000000);
    let (run, action) = step(&mut st, run, MintEvent::PriceQuoted(2_0000000));
    assert_eq!(action, MintAction::Abort(EngineError::BelowMinimumFailure));
    assert_eq!(run.phase, MintPhase::Aborted(EngineError::BelowMinimumFailure));
    assert_eq!(st.minted_gm, 480_000);
}

#[test]
fn a_paused_engine_refuses_before_anything_else() {
    let mut st = engine(200);
    assert_eq!(GbtMinterV2::set_paused(&mut st, &addr("GADMIN"), true), Ok(()));
    let run = MintRun::new(addr("GPAYER"), 100_0000000, 0);
    let (run, action) = step(&mut st, run, MintEvent::Start);
    assert_eq!(action, MintAction::Abort(EngineError::PausedFailure));
    assert_eq!(run.phase, MintPhase::Aborted(EngineError::PausedFailure));
    assert_eq!(st.minted_gm, 0);
    // an aborted run stays aborted, whatever comes
    let (run, action) = step(&mut st, run, MintEvent::AuthGranted);
    assert_eq!(action, MintAction::Abort(EngineError::PausedFailure));
    let (run, action) = step(&mut st, run, MintEvent::PriceQuoted(2_5000000));
    assert_eq!(action, MintAction::Abort(EngineError::PausedFailure));
    assert_eq!(run.phase, MintPhase::Aborted(EngineError::PausedFailure));
    assert_eq!(st.minted_gm, 0);
    // once resumed, a new run goes ahead
    assert_eq!(GbtMinterV2::set_paused(&mut st, &addr("GADMIN"), false), Ok(()));
    let run = MintRun::new(addr("GPAYER"), 100_0000000, 0);
    let (_, action) = step(&mut st, run, MintEvent::Start);
    assert_eq!(action, MintAction::RequireAuth { who: addr("GPAYER") });
}

#[test]
fn a_payer_without_authorization_is_refused() {
    let mut st = engine(200);
    let run = MintRun::new(addr("GPAYER"), 100_0000000, 0);
    let (run, _) = step(&mut st, run, MintEvent::Start);
    let (run, action) = step(&mut st, run, MintEvent::AuthDenied);
    assert_eq!(action, MintAction::Abort(EngineError::AuthorizationFailure));
    assert_eq!(run.phase, MintPhase::Aborted(EngineError::AuthorizationFailure));
    assert_eq!(st.minted_gm, 0);
}

#[test]
fn a_deposit_that_buys_less_than_a_gram_is_refused() {
    let mut st = engine(200);
    let run = up_to_pricing(&mut st, 1_000_0000);
    let (run, action) = step(&mut st, run, MintEvent::PriceQuoted(2_0000000));
    assert_eq!(action, MintAction::Abort(EngineError::BelowMinimumFailure));
    assert_eq!(run.phase, MintPhase::Aborted(EngineError::BelowMinimumFailure));
    assert_eq!(run.quote, None);
    assert_eq!(st.minted_gm, 0);
}

#[test]
fn a_price_that_is_not_positive_is_refused() {
    for price in [0i128, -1, i128::MIN] {
        let mut st = engine(200);
        let run = up_to_pricing(&mut st, 100_0000000);
        let (run, action) = step(&mut st, run, MintEvent::PriceQuoted(price));
        assert_eq!(action, MintAction::Abort(EngineError::BelowMinimumFailure));
        assert_eq!(run.phase, MintPhase::Aborted(EngineError::BelowMinimumFailure));
        assert_eq!(st.minted_gm, 0);
    }
}

#[test]
fn a_failed_call_gives_the_run_up_and_leaves_the_total_alone() {
    // the oracle fails
    let mut st = engine(200);
    let run = up_to_pricing(&mut st, 100_0000000);
    let (run, action) = step(&mut st, run, MintEvent::CallFailed);
    assert_eq!(action, MintAction::Abort(EngineError::CollaboratorFailure));
    assert_eq!(run.phase, MintPhase::Aborted(EngineError::CollaboratorFailure));
    // each of the three calls fails in its turn
    for succeeded in 0..3 {
        let mut st = engine(200);
        let run = up_to_pricing(&mut st, 100_0000000);
        let (mut run, _) = step(&mut st, run, MintEvent::PriceQuoted(2_5000000));
        for _ in 0..succeeded {
            let (next, action) = step(&mut st, run, MintEvent::CallSucceeded);
            assert!(!matches!(action, MintAction::Abort(_) | MintAction::Done));
            run = next;
        }
        let (run, action) = step(&mut st, run, MintEvent::CallFailed);
        assert_eq!(action, MintAction::Abort(EngineError::CollaboratorFailure));
        assert_eq!(run.phase, MintPhase::Aborted(EngineError::CollaboratorFailure));
        assert_eq!(st.minted_gm, 0);
    }
}

#[test]
fn an_answer_out_of_turn_gives_the_run_up() {
    let cases = [
        (MintPhase::Requested, MintEvent::AuthGranted),
        (MintPhase::Requested, MintEvent::CallSucceeded),
        (MintPhase::Authorizing, MintEvent::Start),
        (MintPhase::Authorizing, MintEvent::PriceQuoted(2_5000000)),
        (MintPhase::Pricing, MintEvent::AuthGranted),
        (MintPhase::Pricing, MintEvent::CallSucceeded),
        (MintPhase::CollectingFee, MintEvent::PriceQuoted(2_5000000)),
        (MintPhase::Routing, MintEvent::AuthDenied),
        (MintPhase::Issuing, MintEvent::Start),
    ];
    for (phase, event) in cases {
        let mut st = engine(200);
        let quote = GbtMinterV2::preview_mint(&st, 100_0000000, 2_5000000, 0);
        let run = MintRun {
            payer: addr("GPAYER"),
            amount_stable_1e7: 100_0000000,
            max_id_inclusive: 0,
            phase,
            quote: Some(quote),
        };
        let (run, action) = step(&mut st, run, event);
        assert_eq!(action, MintAction::Abort(EngineError::CollaboratorFailure));
        assert_eq!(run.phase, MintPhase::Aborted(EngineError::CollaboratorFailure));
        assert_eq!(st.minted_gm, 0);
    }
}

#[test]
fn a_run_that_lost_its_quote_is_given_up() {
    for phase in [MintPhase::CollectingFee, MintPhase::Routing, MintPhase::Issuing] {
        let mut st = engine(200);
        let run = MintRun {
            payer: addr("GPAYER"),
            amount_stable_1e7: 100_0000000,
            max_id_inclusive: 0,
            phase,
            quote: None,
        };
        let (run, action) = step(&mut st, run, MintEvent::CallSucceeded);
        assert_eq!(action, MintAction::Abort(EngineError::CollaboratorFailure));
        assert_eq!(run.phase, MintPhase::Aborted(EngineError::CollaboratorFailure));
        assert_eq!(st.minted_gm, 0);
    }
}

#[test]
fn preview_mint_quotes_against_the_live_state() {
    let mut st = engine(200);
    let p = GbtMinterV2::preview_mint(&st, 100_0000000, 2_5000000, 0);
    assert_eq!(p.gbt_out_gm, 39_200);
    assert_eq!(p.fee_stable_1e7, 2_0000000);
    assert_eq!(p.capacity_left_gm, 440_800);
    assert_eq!(GbtMinterV2::checked_preview_mint(&st, 100_0000000, 2_5000000, 0), Some(p));
    // a new fee rate and less room show at once
    assert_eq!(GbtMinterV2::set_fee_bps(&mut st, &addr("GADMIN"), 1_000), Ok(()));
    st.minted_gm = 470_000;
    let p = GbtMinterV2::preview_mint(&st, 100_0000000, 2_5000000, 0);
    assert_eq!(p.fee_stable_1e7, 10_0000000);
    assert_eq!(p.net_stable_1e7, 90_0000000);
    assert_eq!(p.gbt_out_gm, 10_000);
    assert_eq!(p.capacity_left_gm, 0);
    assert!(p.meets_min);
    // quoting changes nothing
    assert_eq!(st.minted_gm, 470_000);
    // with no capacity left the quote is empty
    st.minted_gm = 480_000;
    let p = GbtMinterV2::preview_mint(&st, 100_0000000, 2_5000000, 0);
    assert_eq!(
        p,
        Preview {
            gbt_out_gm: 0,
            net_stable_1e7: 0,
            fee_stable_1e7: 0,
            price_1e7: 2_5000000,
            meets_min: false,
            capacity_left_gm: 0,
        }
    );
}

#[test]
fn mint_ready_tells_what_cannot_be_computed() {
    // an engine that was never initialized can take the request, and no more
    let st = State::new();
    let run = MintRun::new(addr("GPAYER"), 100_0000000, 0);
    assert!(GbtMinterV2::mint_ready(&st, &run, MintEvent::Start));
    let mut st = State::new();
    let (run, action) = GbtMinterV2::mint(&mut st, run, MintEvent::Start);
    assert_eq!(action, MintAction::RequireAuth { who: addr("GPAYER") });
    assert!(!GbtMinterV2::mint_ready(&st, &run, MintEvent::AuthGranted));
    assert!(GbtMinterV2::mint_ready(&st, &run, MintEvent::AuthDenied));
    // a deposit too large to take the fee of
    let mut st = engine(200);
    let run = up_to_pricing(&mut st, i128::MAX);
    assert!(!GbtMinterV2::mint_ready(&st, &run, MintEvent::PriceQuoted(2_5000000)));
    assert!(GbtMinterV2::mint_ready(&st, &run, MintEvent::CallFailed));
    // a minted total that the issuance would carry out of range
    let mut st = engine(200);
    let run = up_to_pricing(&mut st, 100_0000000);
    let (run, _) = step(&mut st, run, MintEvent::PriceQuoted(2_5000000));
    let (run, _) = step(&mut st, run, MintEvent::CallSucceeded);
    let (run, _) = step(&mut st, run, MintEvent::CallSucceeded);
    assert_eq!(run.phase, MintPhase::Issuing);
    st.minted_gm = i128::MAX - 39_199;
    assert!(!GbtMinterV2::mint_ready(&st, &run, MintEvent::CallSucceeded));
    st.minted_gm = i128::MAX - 39_200;
    assert!(GbtMinterV2::mint_ready(&st, &run, MintEvent::CallSucceeded));
}
