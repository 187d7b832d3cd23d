//! Amounts in New Taiwan dollars written with the units 元, 萬 (10^4) and 億 (10^8).

use vstd::prelude::*;
use crate::number::{commas_text, format_with_commas, Decimal};

verus! {

/// The unit in which an amount is written.
#[derive(PartialEq, Eq, Structural, Clone, Copy, Debug)]
pub enum TwdUnit {
    /// 元: plain dollars.
    Yuan,
    /// 萬: ten thousand dollars.
    Wan,
    /// 億: one hundred million dollars.
    Yi,
}

/// What the choice of unit reads of an amount `v`.
pub struct TwdMagnitude {
    /// `|v| >= 100,000,000`.
    pub at_least_yi: bool,
    /// `|v| >= 10,000`.
    pub at_least_wan: bool,
    /// `|v| / 10,000` lies within 0.01 of a whole number.
    pub wan_is_whole: bool,
}

/// The unit and the number of decimals in which an amount is written.
#[derive(PartialEq, Eq, Structural, Clone, Copy, Debug)]
pub struct TwdForm {
    pub unit: TwdUnit,
    pub precision: usize,
}

/// The form of an amount: 億 with one decimal from one hundred million up;
/// below that 萬 from ten thousand up, whole when the count of 萬 is (within
/// 0.01) whole and with one decimal otherwise; 元 without decimals below ten thousand.
pub open spec fn spec_twd_form(m: TwdMagnitude) -> TwdForm {
    if m.at_least_yi {
        TwdForm { unit: TwdUnit::Yi, precision: 1 }
    } else if m.at_least_wan {
        TwdForm { unit: TwdUnit::Wan, precision: if m.wan_is_whole { 0 } else { 1 } }
    } else {
        TwdForm { unit: TwdUnit::Yuan, precision: 0 }
    }
}

/// The number of dollars in one unit.
pub open spec fn spec_unit_size(u: TwdUnit) -> nat {
    match u {
        TwdUnit::Yuan => 1,
        TwdUnit::Wan => 10_000,
        TwdUnit::Yi => 100_000_000,
    }
}

/// The character that follows the number.
pub open spec fn unit_suffix(u: TwdUnit) -> Seq<char> {
    match u {
        TwdUnit::Yuan => "元"@,
        TwdUnit::Wan => "萬"@,
        TwdUnit::Yi => "億"@,
    }
}

/// Chooses the unit and the number of decimals for an amount.
pub fn twd_form(m: &TwdMagnitude) -> (f: TwdForm)
    ensures
        f == spec_twd_form(*m),
{
    if m.at_least_yi {
        TwdForm { unit: TwdUnit::Yi, precision: 1 }
    } else if m.at_least_wan {
        TwdForm { unit: TwdUnit::Wan, precision: if m.wan_is_whole { 0 } else { 1 } }
    } else {
        TwdForm { unit: TwdUnit::Yuan, precision: 0 }
    }
}

/// The number of dollars in one unit: the amount is divided by it before it is written.
pub fn unit_size(u: TwdUnit) -> (n: u64)
    ensures
        n as nat == spec_unit_size(u),
{
    match u {
        TwdUnit::Yuan => 1,
        TwdUnit::Wan => 10_000,
        TwdUnit::Yi => 100_000_000,
    }
}

/// Writes an amount, already counted in `unit` and rounded to the form's
/// precision, with thousands separators and the unit's character:
/// `9,999元`, `-25萬`, `500.5萬`, `1.0億`.
pub fn format_twd_financial(unit: TwdUnit, amount: &Decimal) -> (r: String)
    ensures
        r@ == commas_text(*amount) + unit_suffix(unit),
{
    let mut r = format_with_commas(amount);
    match unit {
        TwdUnit::Yuan => r.append("元"),
        TwdUnit::Wan => r.append("萬"),
        TwdUnit::Yi => r.append("億"),
    }
    r
}

/// The units grow with the amount: a larger magnitude never gets a smaller unit.
pub proof fn lemma_twd_unit_monotone(small: TwdMagnitude, large: TwdMagnitude)
    requires
        small.at_least_yi ==> large.at_least_yi,
        small.at_least_wan ==> large.at_least_wan,
        large.at_least_yi ==> large.at_least_wan,
    ensures
        spec_unit_size(spec_twd_form(small).unit) <= spec_unit_size(spec_twd_form(large).unit),
{
}

/// Amounts in 元 are always whole and amounts in 億 always carry exactly one decimal.
pub proof fn lemma_twd_precision(m: TwdMagnitude)
    ensures
        spec_twd_form(m).unit == TwdUnit::Yuan ==> spec_twd_form(m).precision == 0,
        spec_twd_form(m).unit == TwdUnit::Yi ==> spec_twd_form(m).precision == 1,
        spec_twd_form(m).precision <= 1,
{
}

/// 億 is chosen exactly for amounts from one hundred million up, 元 exactly
/// for amounts below ten thousand, and an amount in 萬 is whole exactly when
/// its count of 萬 is whole; each unit is ten thousand times the one below.
pub proof fn lemma_twd_form_choice()
    ensures
        forall|m: TwdMagnitude| (#[trigger] spec_twd_form(m)).unit == TwdUnit::Yi <==> m.at_least_yi,
        forall|m: TwdMagnitude|
            (#[trigger] spec_twd_form(m)).unit == TwdUnit::Yuan <==> (!m.at_least_yi && !m.at_least_wan),
        forall|m: TwdMagnitude|
            (#[trigger] spec_twd_form(m)).unit == TwdUnit::Wan ==> (spec_twd_form(m).precision == 0 <==> m.wan_is_whole),
        spec_unit_size(TwdUnit::Yuan) == 1,
        spec_unit_size(TwdUnit::Yuan) * 10_000 == spec_unit_size(TwdUnit::Wan),
        spec_unit_size(TwdUnit::Wan) * 10_000 == spec_unit_size(TwdUnit::Yi),
{
}

/// The three units are written with three different characters, each a single character.
pub proof fn lemma_unit_suffixes_distinct()
    ensures
        unit_suffix(TwdUnit::Yuan).len() == 1,
        unit_suffix(TwdUnit::Wan).len() == 1,
        unit_suffix(TwdUnit::Yi).len() == 1,
        unit_suffix(TwdUnit::Yuan) != unit_suffix(TwdUnit::Wan),
        unit_suffix(TwdUnit::Wan) != unit_suffix(TwdUnit::Yi),
        unit_suffix(TwdUnit::Yuan) != unit_suffix(TwdUnit::Yi),
{
    reveal_strlit("元");
    reveal_strlit("萬");
    reveal_strlit("億");
    assert(unit_suffix(TwdUnit::Yuan)[0] != unit_suffix(TwdUnit::Wan)[0]);
    assert(unit_suffix(TwdUnit::Wan)[0] != unit_suffix(TwdUnit::Yi)[0]);
    assert(unit_suffix(TwdUnit::Yuan)[0] != unit_suffix(TwdUnit::Yi)[0]);
}

} // verus!
