//! The month-by-month rules of a trajectory. The amounts themselves are
//! floating-point values computed by the caller; these rules decide which
//! value each entry takes and how a future month moves the balance.

use vstd::prelude::*;

verus! {

/// Where an entry of the history part of a trajectory comes from.
#[derive(PartialEq, Eq, Structural, Clone, Copy, Debug)]
pub enum HistoryEntry {
    /// The settlement month: the current assets entered by the user, nominal
    /// and real alike.
    Settlement,
    /// Month 0 of a history: nothing invested yet.
    Empty,
    /// A month of the history in between: the previous balance plus the
    /// monthly contribution, grown by one month at the anchor rate.
    Compounded,
}

/// The source of history entry `m` (for `m <= hist_months`): the settlement
/// month holds the current assets, which also makes them the starting value
/// of a plan without history; month 0 of a longer history is empty; the
/// months between compound the contributions.
pub open spec fn history_entry_spec(m: nat, hist_months: nat) -> HistoryEntry {
    if m == hist_months {
        HistoryEntry::Settlement
    } else if m == 0 {
        HistoryEntry::Empty
    } else {
        HistoryEntry::Compounded
    }
}

/// The source of history entry `m`.
pub fn history_entry(m: usize, hist_months: usize) -> (e: HistoryEntry)
    requires
        m <= hist_months,
    ensures
        e == history_entry_spec(m as nat, hist_months as nat),
{
    if m == hist_months {
        HistoryEntry::Settlement
    } else if m == 0 {
        HistoryEntry::Empty
    } else {
        HistoryEntry::Compounded
    }
}

/// How the monthly cash flow of the future is counted.
#[derive(PartialEq, Eq, Structural, Clone, Copy, Debug)]
pub enum CashFlow {
    /// A contribution (or nothing), in nominal money, the same every month.
    Nominal,
    /// A withdrawal in real money: the nominal amount grows with the
    /// inflation accumulated since the settlement.
    InflationAdjusted,
}

/// How one future month moves the balance.
#[derive(PartialEq, Eq, Structural, Clone, Copy, Debug)]
pub struct MonthRule {
    pub cash_flow: CashFlow,
    /// Whether the balance plus the cash flow grows by one month's return;
    /// otherwise the cash flow is only added.
    pub earns_return: bool,
}

/// The rule of a future month: contributions are nominal and withdrawals are
/// real; only a positive balance earns a return, so exhausted assets keep
/// falling by the withdrawals without compounding the debt.
pub open spec fn month_rule_spec(cash_flow_non_negative: bool, balance_positive: bool) -> MonthRule {
    MonthRule {
        cash_flow: if cash_flow_non_negative { CashFlow::Nominal } else { CashFlow::InflationAdjusted },
        earns_return: balance_positive,
    }
}

/// The rule of a future month.
pub fn month_rule(cash_flow_non_negative: bool, balance_positive: bool) -> (r: MonthRule)
    ensures
        r == month_rule_spec(cash_flow_non_negative, balance_positive),
{
    MonthRule {
        cash_flow: if cash_flow_non_negative { CashFlow::Nominal } else { CashFlow::InflationAdjusted },
        earns_return: balance_positive,
    }
}

/// Every trajectory passes through the current assets at the settlement
/// month, and a plan without history starts from them.
pub proof fn lemma_settlement_is_current_assets(hist_months: nat)
    ensures
        history_entry_spec(hist_months, hist_months) == HistoryEntry::Settlement,
        history_entry_spec(0, 0) == HistoryEntry::Settlement,
        hist_months > 0 ==> history_entry_spec(0, hist_months) == HistoryEntry::Empty,
{
}

/// In a history of `hist_months` months, month 0 is empty (when the history is
/// not empty), every month strictly between is compounded from the previous
/// one, and the last month is the settlement.
pub proof fn lemma_history_entries(hist_months: nat)
    ensures
        forall|m: nat| 0 < m < hist_months ==> #[trigger] history_entry_spec(m, hist_months) == HistoryEntry::Compounded,
        hist_months > 0 ==> history_entry_spec(0, hist_months) == HistoryEntry::Empty,
        history_entry_spec(hist_months, hist_months) == HistoryEntry::Settlement,
        forall|m: nat| m <= hist_months ==> (#[trigger] history_entry_spec(m, hist_months) == HistoryEntry::Empty
            <==> (m == 0 && hist_months > 0)),
{
}

/// A future month counts its cash flow in nominal money exactly when it is a
/// contribution (not negative), and earns a return exactly when the balance is positive.
pub proof fn lemma_month_rules()
    ensures
        forall|c: bool, b: bool| (#[trigger] month_rule_spec(c, b)).cash_flow == CashFlow::Nominal <==> c,
        forall|c: bool, b: bool| (#[trigger] month_rule_spec(c, b)).earns_return <==> b,
{
}

} // verus!
