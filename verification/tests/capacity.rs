use alternun_contracts::address::Address;
use alternun_contracts::gbt_minter_v2::mine::{
    capacity_of_mine, checked_capacity_of_mine, MineData, BPS, W_INDICADOS, W_INFERIDOS,
    W_MEDIDOS, W_PROBABLES, W_PROBADAS,
};
use alternun_contracts::gbt_minter_v2::state::{GbtMinterV2, State};

fn mine(q: [i128; 5], enabled: bool) -> MineData {
    MineData {
        inferidos_gm: q[0],
        indicados_gm: q[1],
        medidos_gm: q[2],
        probables_gm: q[3],
        probadas_gm: q[4],
        enabled,
    }
}

fn engine(fc_bps: u32) -> (State, Address) {
    let admin = Address::new("GADMIN");
    let mut st = State::new();
    GbtMinterV2::init(
        &mut st,
        Address::new("GADMIN"),
        Address::new("CGBT"),
        Address::new("CSTABLE"),
        Address::new("CTREASURY"),
        Address::new("CORACLE"),
        200,
        fc_bps,
    );
    (st, admin)
}

fn register(st: &mut State, admin: &Address, id: u32, m: MineData) {
    let done = GbtMinterV2::upsert_mine(
        st,
        admin,
        id,
        m.inferidos_gm,
        m.indicados_gm,
        m.medidos_gm,
        m.probables_gm,
        m.probadas_gm,
        m.enabled,
    );
    assert_eq!(done, Ok(()));
}

#[test]
fn weights_are_the_published_ones() {
    assert_eq!(BPS, 10_000);
    assert_eq!(W_INFERIDOS, 1_500);
    assert_eq!(W_INDICADOS, 3_000);
    assert_eq!(W_MEDIDOS, 6_000);
    assert_eq!(W_PROBABLES, 5_000);
    assert_eq!(W_PROBADAS, 7_000);
}

#[test]
fn one_gram_measured_at_eighty_percent() {
    let m = mine([0, 0, 1000, 0, 0], true);
    assert_eq!(capacity_of_mine(&m, 8000), 480);
    assert_eq!(checked_capacity_of_mine(&m, 8000), Some(480));
}

#[test]
fn each_category_counts_with_its_own_weight() {
    assert_eq!(capacity_of_mine(&mine([10_000, 0, 0, 0, 0], true), 10_000), 1_500);
    assert_eq!(capacity_of_mine(&mine([0, 10_000, 0, 0, 0], true), 10_000), 3_000);
    assert_eq!(capacity_of_mine(&mine([0, 0, 10_000, 0, 0], true), 10_000), 6_000);
    assert_eq!(capacity_of_mine(&mine([0, 0, 0, 10_000, 0], true), 10_000), 5_000);
    assert_eq!(capacity_of_mine(&mine([0, 0, 0, 0, 10_000], true), 10_000), 7_000);
    assert_eq!(capacity_of_mine(&mine([1, 2, 3, 4, 5], true), 10_000), 8);
    // 1500 + 6000 + 18000 + 20000 + 35000 = 80500, over 10000
}

#[test]
fn disabled_mine_has_no_capacity_whatever_it_holds() {
    let huge = mine([i128::MAX, i128::MAX, i128::MAX, i128::MAX, i128::MAX], false);
    assert_eq!(capacity_of_mine(&huge, i128::MAX), 0);
    assert_eq!(checked_capacity_of_mine(&huge, i128::MAX), Some(0));
    let lowest = mine([i128::MIN, i128::MIN, i128::MIN, i128::MIN, i128::MIN], false);
    assert_eq!(capacity_of_mine(&lowest, -1), 0);
    assert_eq!(capacity_of_mine(&mine([1000, 1000, 1000, 1000, 1000], false), 8000), 0);
}

#[test]
fn capacity_rounds_toward_zero() {
    // 1 * 1500 * 9999 = 14_998_500, below one hundred million
    assert_eq!(capacity_of_mine(&mine([1, 0, 0, 0, 0], true), 9_999), 0);
    // 66_667 * 1500 = 100_000_500
    assert_eq!(capacity_of_mine(&mine([66_667, 0, 0, 0, 0], true), 10_000), 10_000);
    assert_eq!(capacity_of_mine(&mine([66_666, 0, 0, 0, 0], true), 10_000), 9_999);
    // a negative quantity is rounded up toward zero, not down
    assert_eq!(capacity_of_mine(&mine([-66_666, 0, 0, 0, 0], true), 10_000), -9_999);
    assert_eq!(capacity_of_mine(&mine([-1, 0, 0, 0, 0], true), 10_000), 0);
}

#[test]
fn capacity_does_not_fall_when_a_quantity_or_the_factor_rises() {
    let base = [700_000, 20_000, 3_000, 40_000, 5_000];
    let at = |q: [i128; 5], fc: i128| capacity_of_mine(&mine(q, true), fc);
    for field in 0..5 {
        let mut previous = at(base, 8_000);
        for step in 1..50 {
            let mut q = base;
            q[field] += step * 777;
            let now = at(q, 8_000);
            assert!(now >= previous);
            previous = now;
        }
        assert!(previous > at(base, 8_000));
    }
    let mut previous = at(base, 0);
    assert_eq!(previous, 0);
    for fc in 1..200 {
        let now = at(base, fc * 50);
        assert!(now >= previous);
        previous = now;
    }
    assert_eq!(previous, at(base, 9_950));
    // under a negative factor more inventory means less capacity
    assert!(at([2_000_000, 0, 0, 0, 0], -8_000) < at([1_000_000, 0, 0, 0, 0], -8_000));
    // and a mine with a negative weighted sum loses capacity as the factor rises
    assert!(at([-1_000_000, 0, 0, 0, 0], 9_000) < at([-1_000_000, 0, 0, 0, 0], 8_000));
}

#[test]
fn checked_capacity_reports_what_does_not_fit() {
    let m = mine([i128::MAX, 0, 0, 0, 0], true);
    assert_eq!(checked_capacity_of_mine(&m, 8000), None);
    let m = mine([i128::MAX / 1_500, i128::MAX / 3_000, 0, 0, 0], true);
    assert_eq!(checked_capacity_of_mine(&m, 1), None);
    let m = mine([0, 0, 0, 0, i128::MAX / 7_000], true);
    assert_eq!(checked_capacity_of_mine(&m, 2), None);
    assert_eq!(
        checked_capacity_of_mine(&m, 1),
        Some((i128::MAX / 7_000) * 7_000 / 100_000_000)
    );
    assert_eq!(checked_capacity_of_mine(&m, -1), Some(-((i128::MAX / 7_000) * 7_000 / 100_000_000)));
}

#[test]
fn absent_mine_reads_as_empty_and_disabled() {
    let (st, _) = engine(8000);
    assert_eq!(GbtMinterV2::get_mine(&st, 7), mine([0, 0, 0, 0, 0], false));
    assert_eq!(GbtMinterV2::get_mine(&st, 7), MineData::absent());
    assert_eq!(GbtMinterV2::mine_capacity_gm(&st, 7), 0);
    let untouched = State::new();
    assert_eq!(GbtMinterV2::get_mine(&untouched, 0), MineData::absent());
    assert_eq!(GbtMinterV2::mine_capacity_gm(&untouched, 0), 0);
}

#[test]
fn mine_capacity_uses_the_factor_in_force() {
    let (mut st, admin) = engine(8000);
    register(&mut st, &admin, 3, mine([0, 0, 1000, 0, 0], true));
    assert_eq!(GbtMinterV2::mine_capacity_gm(&st, 3), 480);
    assert_eq!(GbtMinterV2::set_fc_bps(&mut st, &admin, 10_000), Ok(()));
    assert_eq!(GbtMinterV2::mine_capacity_gm(&st, 3), 600);
    register(&mut st, &admin, 3, mine([0, 0, 1000, 0, 0], false));
    assert_eq!(GbtMinterV2::mine_capacity_gm(&st, 3), 0);
}

#[test]
fn total_capacity_adds_up_the_enabled_mines_in_the_range() {
    let (mut st, admin) = engine(8000);
    register(&mut st, &admin, 0, mine([0, 0, 1000, 0, 0], true)); // 480
    register(&mut st, &admin, 2, mine([0, 0, 0, 0, 1_000_000], true)); // 560_000
    register(&mut st, &admin, 3, mine([5_000_000, 0, 0, 0, 0], false)); // disabled
    register(&mut st, &admin, 9, mine([0, 2_000, 0, 0, 0], true)); // 480
    assert_eq!(GbtMinterV2::total_capacity_gm(&st, 0), 480);
    assert_eq!(GbtMinterV2::total_capacity_gm(&st, 1), 480);
    assert_eq!(GbtMinterV2::total_capacity_gm(&st, 2), 560_480);
    assert_eq!(GbtMinterV2::total_capacity_gm(&st, 8), 560_480);
    assert_eq!(GbtMinterV2::total_capacity_gm(&st, 9), 560_960);
    assert_eq!(GbtMinterV2::total_capacity_gm(&st, 1000), 560_960);
    assert_eq!(GbtMinterV2::checked_total_capacity_gm(&st, 1000), Some(560_960));
}

#[test]
fn total_capacity_of_no_mines_is_zero() {
    let (st, _) = engine(8000);
    assert_eq!(GbtMinterV2::total_capacity_gm(&st, 0), 0);
    assert_eq!(GbtMinterV2::total_capacity_gm(&st, 50), 0);
    assert_eq!(GbtMinterV2::available_capacity_gm(&st, 50), 0);
}

#[test]
fn available_capacity_is_the_ceiling_less_the_minted_total_and_never_negative() {
    let (mut st, admin) = engine(8000);
    register(&mut st, &admin, 0, mine([0, 0, 1_000_000, 0, 0], true)); // 480_000
    assert_eq!(GbtMinterV2::available_capacity_gm(&st, 0), 480_000);
    st.minted_gm = 80_000;
    assert_eq!(GbtMinterV2::available_capacity_gm(&st, 0), 400_000);
    st.minted_gm = 480_000;
    assert_eq!(GbtMinterV2::available_capacity_gm(&st, 0), 0);
    st.minted_gm = 480_001;
    assert_eq!(GbtMinterV2::available_capacity_gm(&st, 0), 0);
    // the ceiling falls below what was minted once the mine is retired
    register(&mut st, &admin, 0, mine([0, 0, 1_000_000, 0, 0], false));
    assert_eq!(GbtMinterV2::total_capacity_gm(&st, 0), 0);
    assert_eq!(GbtMinterV2::available_capacity_gm(&st, 0), 0);
    assert_eq!(GbtMinterV2::checked_available_capacity_gm(&st, 0), Some(0));
}

#[test]
fn checked_totals_report_what_does_not_fit() {
    let (mut st, admin) = engine(10_000);
    let big = i128::MAX / 70_000_000; // capacity just under a ten-thousandth of the range
    register(&mut st, &admin, 0, mine([0, 0, 0, 0, big], true));
    assert!(GbtMinterV2::checked_total_capacity_gm(&st, 0).is_some());
    register(&mut st, &admin, 1, mine([0, 0, 0, 0, i128::MAX / 7_000], true));
    assert_eq!(GbtMinterV2::checked_total_capacity_gm(&st, 1), None);
    assert_eq!(GbtMinterV2::checked_available_capacity_gm(&st, 1), None);
    assert!(GbtMinterV2::checked_total_capacity_gm(&st, 0).is_some());
    // a ceiling that fits, but from which a negative minted total cannot be taken
    let (mut st, admin) = engine(10_000);
    register(&mut st, &admin, 0, mine([0, 0, 0, 0, 10_000], true));
    st.minted_gm = i128::MIN;
    assert_eq!(GbtMinterV2::checked_total_capacity_gm(&st, 0), Some(7_000));
    assert_eq!(GbtMinterV2::checked_available_capacity_gm(&st, 0), None);
}

#[test]
fn disabling_a_mine_lowers_the_total_by_its_capacity() {
    let (mut st, admin) = engine(8000);
    register(&mut st, &admin, 0, mine([0, 0, 1000, 0, 0], true)); // 480
    register(&mut st, &admin, 1, mine([10, 20, 30, 40, 1_000_000], true));
    register(&mut st, &admin, 2, mine([0, 2_000, 0, 0, 0], true)); // 480
    let before = GbtMinterV2::total_capacity_gm(&st, 2);
    let contributed = GbtMinterV2::mine_capacity_gm(&st, 1);
    assert_eq!(contributed, 560_036);
    register(&mut st, &admin, 1, mine([10, 20, 30, 40, 1_000_000], false));
    assert_eq!(GbtMinterV2::mine_capacity_gm(&st, 1), 0);
    assert_eq!(GbtMinterV2::total_capacity_gm(&st, 2), before - contributed);
    assert_eq!(GbtMinterV2::total_capacity_gm(&st, 2), 960);
    // a range that does not hold the mine is not touched
    assert_eq!(GbtMinterV2::total_capacity_gm(&st, 0), 480);
    // enabling it again restores the total
    register(&mut st, &admin, 1, mine([10, 20, 30, 40, 1_000_000], true));
    assert_eq!(GbtMinterV2::total_capacity_gm(&st, 2), before);
}
