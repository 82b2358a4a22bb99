//! The mint quote: what a deposit would buy at a given price.
//!
//! Quoting is pure.  It reads nothing and changes nothing, so it can be asked
//! as often as a caller likes, and it answers degenerate questions with an
//! empty quote instead of failing.

use crate::arith::{clamp_at_zero, div_toward_zero, fits_i128};
use crate::gbt_minter_v2::mine::BPS;
use vstd::prelude::*;

verus! {

/// Thousandths of a gram issued per unit of net deposit divided by price.
pub const GM_SCALE: i128 = 1_000;

/// The smallest issuance that is carried out: one gram.
pub const MIN_GBT_OUT_GM: i128 = 1_000;

/// The outcome of a quote.
#[derive(Clone, Copy, Debug, PartialEq, Eq, Structural)]
pub struct Preview {
    /// Issuance, in thousandths of a gram.
    pub gbt_out_gm: i128,
    /// What is left of the deposit once the fee is taken.
    pub net_stable_1e7: i128,
    /// The fee taken from the deposit.
    pub fee_stable_1e7: i128,
    /// The price the quote was made at.
    pub price_1e7: i128,
    /// Whether the deposit buys at least one gram.
    pub meets_min: bool,
    /// Capacity that remains once the issuance is taken from it.
    pub capacity_left_gm: i128,
}

/// A question to which the answer is the empty quote: a deposit, a price or
/// an available capacity that is not positive.
pub open spec fn is_degenerate(amount: int, price: int, avail: int) -> bool {
    amount <= 0 || price <= 0 || avail <= 0
}

/// The fee on a deposit: its `fee_bps` ten-thousandths, rounded down.
pub open spec fn fee_on(amount: int, fee_bps: int) -> int {
    (amount * fee_bps) / (BPS as int)
}

/// The deposit less its fee.
pub open spec fn net_of(amount: int, fee_bps: int) -> int {
    amount - fee_on(amount, fee_bps)
}

/// What the net deposit buys at `price`, in thousandths of a gram, before
/// the minimum and the capacity are applied.
pub open spec fn gbt_before_limits(amount: int, price: int, fee_bps: int) -> int {
    div_toward_zero(net_of(amount, fee_bps) * GM_SCALE, price)
}

/// Whether the deposit buys at least one gram.
pub open spec fn reaches_minimum(amount: int, price: int, avail: int, fee_bps: int) -> bool {
    !is_degenerate(amount, price, avail) && gbt_before_limits(amount, price, fee_bps)
        >= MIN_GBT_OUT_GM
}

/// The issuance quoted: nothing below the minimum, and never more than the
/// available capacity.
pub open spec fn gbt_quoted(amount: int, price: int, avail: int, fee_bps: int) -> int {
    if !reaches_minimum(amount, price, avail, fee_bps) {
        0
    } else if gbt_before_limits(amount, price, fee_bps) > avail {
        avail
    } else {
        gbt_before_limits(amount, price, fee_bps)
    }
}

/// The capacity that the issuance quoted leaves: the available capacity less
/// the issuance, and nothing where nothing was available.
pub open spec fn capacity_left(amount: int, price: int, avail: int, fee_bps: int) -> int {
    clamp_at_zero(avail - gbt_quoted(amount, price, avail, fee_bps))
}

/// The quote for a deposit of `amount` at `price`, with `avail` capacity
/// available and a fee rate of `fee_bps`.  Its numbers are those of
/// [`Preview::is_quote_for`] wherever they fit the fields.
pub open spec fn quote_for(amount: int, price: int, avail: int, fee_bps: int) -> Preview {
    Preview {
        gbt_out_gm: gbt_quoted(amount, price, avail, fee_bps) as i128,
        net_stable_1e7: if is_degenerate(amount, price, avail) {
            0
        } else {
            net_of(amount, fee_bps) as i128
        },
        fee_stable_1e7: if is_degenerate(amount, price, avail) {
            0
        } else {
            fee_on(amount, fee_bps) as i128
        },
        price_1e7: price as i128,
        meets_min: reaches_minimum(amount, price, avail, fee_bps),
        capacity_left_gm: capacity_left(amount, price, avail, fee_bps) as i128,
    }
}

impl Preview {
    /// `self` is the quote for a deposit of `amount` at `price`, with `avail`
    /// capacity available and a fee rate of `fee_bps`.  Exactly one value is.
    pub open spec fn is_quote_for(self, amount: int, price: int, avail: int, fee_bps: int) -> bool {
        &&& self.price_1e7 == price
        &&& self.gbt_out_gm == gbt_quoted(amount, price, avail, fee_bps)
        &&& self.meets_min == reaches_minimum(amount, price, avail, fee_bps)
        &&& self.capacity_left_gm == capacity_left(amount, price, avail, fee_bps)
        &&& self.fee_stable_1e7 == if is_degenerate(amount, price, avail) {
            0
        } else {
            fee_on(amount, fee_bps)
        }
        &&& self.net_stable_1e7 == if is_degenerate(amount, price, avail) {
            0
        } else {
            net_of(amount, fee_bps)
        }
    }
}

/// The quote can be computed in 128-bit arithmetic.  A degenerate question
/// needs no arithmetic.
pub open spec fn preview_in_range(amount: int, price: int, avail: int, fee_bps: int) -> bool {
    !is_degenerate(amount, price, avail) ==> fits_i128(amount * fee_bps) && fits_i128(
        net_of(amount, fee_bps) * GM_SCALE,
    )
}

/// Quotes a deposit of `amount_stable_1e7` at `price_1e7`, with `avail_gm`
/// capacity available and a fee rate of `fee_bps`.
pub fn preview(amount_stable_1e7: i128, price_1e7: i128, avail_gm: i128, fee_bps: u32) -> (p:
    Preview)
    requires
        preview_in_range(
            amount_stable_1e7 as int,
            price_1e7 as int,
            avail_gm as int,
            fee_bps as int,
        ),
    ensures
        p.is_quote_for(
            amount_stable_1e7 as int,
            price_1e7 as int,
            avail_gm as int,
            fee_bps as int,
        ),
        p == quote_for(
            amount_stable_1e7 as int,
            price_1e7 as int,
            avail_gm as int,
            fee_bps as int,
        ),
        amount_stable_1e7 > 0 && price_1e7 > 0 && avail_gm > 0 ==> p.fee_stable_1e7
            + p.net_stable_1e7 == amount_stable_1e7,
        0 <= p.gbt_out_gm <= clamp_at_zero(avail_gm as int),
        p.capacity_left_gm == clamp_at_zero(avail_gm as int) - p.gbt_out_gm,
        p.capacity_left_gm >= 0,
        p.meets_min ==> p.gbt_out_gm > 0,
        !p.meets_min ==> p.gbt_out_gm == 0,
{
    if amount_stable_1e7 <= 0 || price_1e7 <= 0 || avail_gm <= 0 {
        return Preview {
            gbt_out_gm: 0,
            net_stable_1e7: 0,
            fee_stable_1e7: 0,
            price_1e7,
            meets_min: false,
            capacity_left_gm: if avail_gm < 0 {
                0
            } else {
                avail_gm
            },
        };
    }
    let fee = (amount_stable_1e7 * (fee_bps as i128)) / BPS;
    let net = amount_stable_1e7 - fee;
    let mut gbt_out_gm = (net * GM_SCALE) / price_1e7;
    let meets_min = gbt_out_gm >= MIN_GBT_OUT_GM;
    if !meets_min {
        gbt_out_gm = 0;
    }
    if gbt_out_gm > avail_gm {
        gbt_out_gm = avail_gm;
    }
    Preview {
        gbt_out_gm,
        net_stable_1e7: net,
        fee_stable_1e7: fee,
        price_1e7,
        meets_min,
        capacity_left_gm: avail_gm - gbt_out_gm,
    }
}

/// Quotes as [`preview`] does where 128-bit arithmetic can, and reports
/// `None` where it cannot.
pub fn checked_preview(amount_stable_1e7: i128, price_1e7: i128, avail_gm: i128, fee_bps: u32) -> (p:
    Option<Preview>)
    ensures
        p is Some <==> preview_in_range(
            amount_stable_1e7 as int,
            price_1e7 as int,
            avail_gm as int,
            fee_bps as int,
        ),
        p matches Some(q) ==> q.is_quote_for(
            amount_stable_1e7 as int,
            price_1e7 as int,
            avail_gm as int,
            fee_bps as int,
        ) && q == quote_for(
            amount_stable_1e7 as int,
            price_1e7 as int,
            avail_gm as int,
            fee_bps as int,
        ),
{
    if amount_stable_1e7 > 0 && price_1e7 > 0 && avail_gm > 0 {
        let scaled = amount_stable_1e7.checked_mul(fee_bps as i128)?;
        let net = amount_stable_1e7 - scaled / BPS;
        let _ = net.checked_mul(GM_SCALE)?;
    }
    Some(preview(amount_stable_1e7, price_1e7, avail_gm, fee_bps))
}

/// The fee and the net of a quote make up the deposit, whenever deposit,
/// price and available capacity are positive; and under a fee rate of no more
/// than the whole, the fee lies between nothing and the deposit.
pub proof fn quote_splits_the_deposit(
    p: Preview,
    amount: int,
    price: int,
    avail: int,
    fee_bps: int,
)
    requires
        p.is_quote_for(amount, price, avail, fee_bps),
        amount > 0,
        price > 0,
        avail > 0,
    ensures
        p.fee_stable_1e7 + p.net_stable_1e7 == amount,
        0 <= fee_bps <= BPS ==> 0 <= p.fee_stable_1e7 <= amount && 0 <= p.net_stable_1e7
            <= amount,
{
    if 0 <= fee_bps <= BPS {
        assert(0 <= amount * fee_bps <= amount * 10_000) by (nonlinear_arith)
            requires
                amount > 0,
                0 <= fee_bps <= 10_000,
        ;
    }
}

/// An issuance of at least one gram that exceeds the available capacity is
/// cut to that capacity and leaves none.  The quote still says that the
/// minimum is met: that is judged before the cut, so it holds even where less
/// than a gram was available.
pub proof fn quote_is_cut_to_the_capacity(
    p: Preview,
    amount: int,
    price: int,
    avail: int,
    fee_bps: int,
)
    requires
        p.is_quote_for(amount, price, avail, fee_bps),
        amount > 0,
        price > 0,
        avail > 0,
        gbt_before_limits(amount, price, fee_bps) >= MIN_GBT_OUT_GM,
        gbt_before_limits(amount, price, fee_bps) > avail,
    ensures
        p.gbt_out_gm == avail,
        p.capacity_left_gm == 0,
        p.meets_min,
{
}

/// An issuance below one gram is dropped, whatever the capacity: the quote
/// issues nothing and leaves the capacity as it was.
pub proof fn quote_below_the_minimum_is_empty(
    p: Preview,
    amount: int,
    price: int,
    avail: int,
    fee_bps: int,
)
    requires
        p.is_quote_for(amount, price, avail, fee_bps),
        amount > 0,
        price > 0,
        avail > 0,
        gbt_before_limits(amount, price, fee_bps) < MIN_GBT_OUT_GM,
    ensures
        p.gbt_out_gm == 0,
        p.capacity_left_gm == avail,
        !p.meets_min,
{
}

/// A deposit within the signed 64-bit range can be quoted at any price,
/// against any capacity, under any fee rate the configuration can hold.
pub proof fn preview_of_bounded_deposit(amount: int, price: int, avail: int, fee_bps: int)
    requires
        amount <= i64::MAX,
        0 <= fee_bps <= u32::MAX,
    ensures
        preview_in_range(amount, price, avail, fee_bps),
{
    if !is_degenerate(amount, price, avail) {
        assert(0 <= amount * fee_bps <= 0x7fff_ffff_ffff_ffff * 0xffff_ffff) by (nonlinear_arith)
            requires
                0 < amount <= 0x7fff_ffff_ffff_ffff,
                0 <= fee_bps <= 0xffff_ffff,
        ;
    }
}

} // verus!
