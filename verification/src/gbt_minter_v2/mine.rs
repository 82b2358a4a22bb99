//! Mine records and the capacity each one contributes.

use crate::arith::{div_toward_zero, fits_i128};
use vstd::prelude::*;

verus! {

/// One whole, in basis points.
pub const BPS: i128 = 10_000;

/// Weight of inferred resources, in basis points.
pub const W_INFERIDOS: i128 = 1_500;

/// Weight of indicated resources, in basis points.
pub const W_INDICADOS: i128 = 3_000;

/// Weight of measured resources, in basis points.
pub const W_MEDIDOS: i128 = 6_000;

/// Weight of probable reserves, in basis points.
pub const W_PROBABLES: i128 = 5_000;

/// Weight of proven reserves, in basis points.
pub const W_PROBADAS: i128 = 7_000;

/// The inventory of one mine: five resource categories of decreasing
/// uncertainty, each in thousandths of a gram, and whether the mine counts
/// toward capacity.
#[derive(Clone, Copy, Debug, PartialEq, Eq, Structural)]
pub struct MineData {
    pub inferidos_gm: i128,
    pub indicados_gm: i128,
    pub medidos_gm: i128,
    pub probables_gm: i128,
    pub probadas_gm: i128,
    pub enabled: bool,
}

impl MineData {
    /// The five quantities, each multiplied by its weight, added up.
    pub open spec fn weighted_sum(self) -> int {
        self.inferidos_gm * W_INFERIDOS + self.indicados_gm * W_INDICADOS + self.medidos_gm
            * W_MEDIDOS + self.probables_gm * W_PROBABLES + self.probadas_gm * W_PROBADAS
    }

    /// No quantity is below zero.
    pub open spec fn non_negative(self) -> bool {
        &&& self.inferidos_gm >= 0
        &&& self.indicados_gm >= 0
        &&& self.medidos_gm >= 0
        &&& self.probables_gm >= 0
        &&& self.probadas_gm >= 0
    }

    /// Every quantity lies within the signed 64-bit range.
    pub open spec fn within_64_bits(self) -> bool {
        &&& i64::MIN <= self.inferidos_gm <= i64::MAX
        &&& i64::MIN <= self.indicados_gm <= i64::MAX
        &&& i64::MIN <= self.medidos_gm <= i64::MAX
        &&& i64::MIN <= self.probables_gm <= i64::MAX
        &&& i64::MIN <= self.probadas_gm <= i64::MAX
    }

    /// The weighted sum can be accumulated term by term, in the order of the
    /// fields, without leaving the 128-bit range.
    pub open spec fn sum_in_range(self) -> bool {
        let a = self.inferidos_gm * W_INFERIDOS;
        let b = self.indicados_gm * W_INDICADOS;
        let c = self.medidos_gm * W_MEDIDOS;
        let d = self.probables_gm * W_PROBABLES;
        let e = self.probadas_gm * W_PROBADAS;
        &&& fits_i128(a)
        &&& fits_i128(b)
        &&& fits_i128(c)
        &&& fits_i128(d)
        &&& fits_i128(e)
        &&& fits_i128(a + b)
        &&& fits_i128(a + b + c)
        &&& fits_i128(a + b + c + d)
        &&& fits_i128(a + b + c + d + e)
    }

    /// The record that stands for a mine nobody has registered: nothing in
    /// any category, and disabled.
    pub open spec fn spec_absent() -> MineData {
        MineData {
            inferidos_gm: 0,
            indicados_gm: 0,
            medidos_gm: 0,
            probables_gm: 0,
            probadas_gm: 0,
            enabled: false,
        }
    }

    /// Returns the record that stands for an unregistered mine.
    #[verifier::when_used_as_spec(spec_absent)]
    pub fn absent() -> (m: MineData)
        ensures
            m == MineData::spec_absent(),
    {
        MineData {
            inferidos_gm: 0,
            indicados_gm: 0,
            medidos_gm: 0,
            probables_gm: 0,
            probadas_gm: 0,
            enabled: false,
        }
    }
}

/// The issuance ceiling that one mine contributes under the commercial
/// factor `fc_bps`: nothing while the mine is disabled, otherwise its weighted
/// sum scaled by the factor, both scalings being in basis points.
pub open spec fn capacity_of(m: MineData, fc_bps: int) -> int {
    if m.enabled {
        div_toward_zero(m.weighted_sum() * fc_bps, BPS * BPS)
    } else {
        0
    }
}

/// The capacity of `m` under `fc_bps` can be computed in 128-bit arithmetic.
/// A disabled mine needs no arithmetic at all.
pub open spec fn capacity_in_range(m: MineData, fc_bps: int) -> bool {
    m.enabled ==> m.sum_in_range() && fits_i128(m.weighted_sum() * fc_bps)
}

/// Computes the capacity that `m` contributes under the commercial factor
/// `fc_bps`.
pub fn capacity_of_mine(m: &MineData, fc_bps: i128) -> (cap: i128)
    requires
        capacity_in_range(*m, fc_bps as int),
    ensures
        cap == capacity_of(*m, fc_bps as int),
        !m.enabled ==> cap == 0,
{
    if !m.enabled {
        return 0;
    }
    let sum = m.inferidos_gm * W_INFERIDOS + m.indicados_gm * W_INDICADOS + m.medidos_gm
        * W_MEDIDOS + m.probables_gm * W_PROBABLES + m.probadas_gm * W_PROBADAS;
    (sum * fc_bps) / (BPS * BPS)
}

/// Computes the capacity of `m` under `fc_bps` where 128-bit arithmetic can,
/// and reports `None` where it cannot.
pub fn checked_capacity_of_mine(m: &MineData, fc_bps: i128) -> (cap: Option<i128>)
    ensures
        cap is Some <==> capacity_in_range(*m, fc_bps as int),
        cap matches Some(c) ==> c == capacity_of(*m, fc_bps as int),
{
    if !m.enabled {
        return Some(0);
    }
    let a = m.inferidos_gm.checked_mul(W_INFERIDOS)?;
    let b = m.indicados_gm.checked_mul(W_INDICADOS)?;
    let c = m.medidos_gm.checked_mul(W_MEDIDOS)?;
    let d = m.probables_gm.checked_mul(W_PROBABLES)?;
    let e = m.probadas_gm.checked_mul(W_PROBADAS)?;
    let ab = a.checked_add(b)?;
    let abc = ab.checked_add(c)?;
    let abcd = abc.checked_add(d)?;
    let sum = abcd.checked_add(e)?;
    let scaled = sum.checked_mul(fc_bps)?;
    Some(scaled / (BPS * BPS))
}

/// A disabled mine contributes nothing, whatever it holds and whatever the
/// factor, and nothing needs to be computed to know it.
pub proof fn disabled_mine_has_no_capacity(m: MineData, fc_bps: int)
    requires
        !m.enabled,
    ensures
        capacity_of(m, fc_bps) == 0,
        capacity_in_range(m, fc_bps),
{
}

/// A mine that raises no quantity of another contributes no more capacity
/// than it, under a commercial factor that is not negative.
pub proof fn capacity_grows_with_quantities(lo: MineData, hi: MineData, fc_bps: int)
    requires
        lo.enabled == hi.enabled,
        lo.inferidos_gm <= hi.inferidos_gm,
        lo.indicados_gm <= hi.indicados_gm,
        lo.medidos_gm <= hi.medidos_gm,
        lo.probables_gm <= hi.probables_gm,
        lo.probadas_gm <= hi.probadas_gm,
        fc_bps >= 0,
    ensures
        capacity_of(lo, fc_bps) <= capacity_of(hi, fc_bps),
{
    let x = lo.weighted_sum();
    let y = hi.weighted_sum();
    assert(x * fc_bps <= y * fc_bps) by (nonlinear_arith)
        requires
            x <= y,
            fc_bps >= 0,
    ;
}

/// Raising the commercial factor never lowers the capacity of a mine whose
/// weighted sum is not negative, as is that of every mine without a
/// negative quantity.
pub proof fn capacity_grows_with_factor(m: MineData, fc_lo: int, fc_hi: int)
    requires
        m.weighted_sum() >= 0,
        fc_lo <= fc_hi,
    ensures
        capacity_of(m, fc_lo) <= capacity_of(m, fc_hi),
{
    let x = m.weighted_sum();
    assert(x * fc_lo <= x * fc_hi) by (nonlinear_arith)
        requires
            x >= 0,
            fc_lo <= fc_hi,
    ;
}

/// A mine without a negative quantity has a weighted sum that is not
/// negative, and so a capacity that is not negative under a factor that is
/// not.
pub proof fn capacity_of_non_negative_mine(m: MineData, fc_bps: int)
    requires
        m.non_negative(),
        fc_bps >= 0,
    ensures
        m.weighted_sum() >= 0,
        capacity_of(m, fc_bps) >= 0,
{
    let x = m.weighted_sum();
    assert(x * fc_bps >= 0) by (nonlinear_arith)
        requires
            x >= 0,
            fc_bps >= 0,
    ;
}

/// Quantities within the signed 64-bit range and a factor within the
/// unsigned 32-bit range keep the whole computation far inside 128 bits: the
/// capacity is then computable and at most `2^83` in size.
pub proof fn capacity_of_bounded_mine(m: MineData, fc_bps: int)
    requires
        m.within_64_bits(),
        0 <= fc_bps <= u32::MAX,
    ensures
        capacity_in_range(m, fc_bps),
        -0x8_0000_0000_0000_0000_0000 <= capacity_of(m, fc_bps) <= 0x8_0000_0000_0000_0000_0000,
{
    let x = m.weighted_sum();
    let bound: int = 23_000int * 0x8000_0000_0000_0000int;
    assert(-bound <= x <= bound);
    assert(-bound * 0xffff_ffff <= x * fc_bps <= bound * 0xffff_ffff) by (nonlinear_arith)
        requires
            -bound <= x <= bound,
            0 <= fc_bps <= 0xffff_ffff,
    ;
}

} // verus!
