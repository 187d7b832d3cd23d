//! The simulation settings entered by the user: the three ages of the plan,
//! the future mode, and the hints shown beside the inputs.

use vstd::prelude::*;
use vstd::string::*;
use crate::text::{append_decimal, decimal};

verus! {

/// The highest age that the inputs accept.
pub const MAX_AGE: usize = 150;

/// `a - b`, or 0 when `b > a`.
pub open spec fn sat_sub(a: int, b: int) -> int {
    if a >= b { a - b } else { 0 }
}

/// `v` brought into `lo..=hi` (for `lo <= hi`).
pub open spec fn spec_clamp(v: int, lo: int, hi: int) -> int {
    if v < lo { lo } else if v > hi { hi } else { v }
}

/// The larger of two numbers.
pub open spec fn spec_max(a: int, b: int) -> int {
    if a >= b { a } else { b }
}

/// `v` brought into `lo..=hi`; std's `clamp` panics when `lo > hi`, hence the requirement.
pub fn clamp(v: usize, lo: usize, hi: usize) -> (r: usize)
    requires
        lo <= hi,
    ensures
        r == spec_clamp(v as int, lo as int, hi as int),
{
    if v < lo {
        lo
    } else if v > hi {
        hi
    } else {
        v
    }
}

/// The ages of a plan: when investing started, now, and the target.
#[derive(PartialEq, Eq, Structural, Clone, Copy, Debug)]
pub struct AgeSettings {
    pub start_age: usize,
    pub current_age: usize,
    pub target_age: usize,
}

/// Years of investment history: from the start age to the current age, none
/// when the current age is not after the start.
pub open spec fn spec_hist_years(a: AgeSettings) -> int {
    sat_sub(a.current_age as int, a.start_age as int)
}

/// Years simulated: from the start to the target, but at least the history
/// and at least one year; while the ages contradict each other (current age
/// before the start, or target not after the current age) only the history,
/// or one year.
pub open spec fn spec_total_years(a: AgeSettings) -> int {
    let hy = spec_hist_years(a);
    if a.current_age < a.start_age || a.target_age <= a.current_age {
        spec_max(hy, 1)
    } else {
        spec_max(spec_max(sat_sub(a.target_age as int, a.start_age as int), hy), 1)
    }
}

/// The ages ordered as the inputs keep them: start, then current, then target, all within range.
pub open spec fn ages_ordered(a: AgeSettings) -> bool {
    a.start_age <= a.current_age < a.target_age <= MAX_AGE
}

impl AgeSettings {
    /// Restores the ages saved by an earlier session, each brought into its
    /// range: the start into `0..=150`, the current age into `start..=150`,
    /// and the target into `current + 1..=150`.
    ///
    /// The target's range is empty when the restored current age is 150,
    /// which the original program does not survive; hence the requirement.
    pub fn from_stored(start_age: usize, current_age: usize, target_age: usize) -> (a: AgeSettings)
        requires
            start_age < MAX_AGE,
            current_age < MAX_AGE,
        ensures
            a.start_age == spec_clamp(start_age as int, 0, MAX_AGE as int),
            a.current_age == spec_clamp(current_age as int, a.start_age as int, MAX_AGE as int),
            a.target_age == spec_clamp(target_age as int, a.current_age + 1, MAX_AGE as int),
            ages_ordered(a),
    {
        let s = clamp(start_age, 0, MAX_AGE);
        let c = clamp(current_age, s, MAX_AGE);
        let t = clamp(target_age, c + 1, MAX_AGE);
        AgeSettings { start_age: s, current_age: c, target_age: t }
    }

    /// Years of investment history.
    pub fn hist_years(&self) -> (r: usize)
        ensures
            r == spec_hist_years(*self),
    {
        if self.current_age >= self.start_age {
            self.current_age - self.start_age
        } else {
            0
        }
    }

    /// Whether the history input is shown: there is a history and the current
    /// age is not before the start.
    pub fn is_hist_years_active(&self) -> (b: bool)
        ensures
            b == (spec_hist_years(*self) > 0 && self.current_age >= self.start_age),
    {
        self.hist_years() > 0 && self.current_age >= self.start_age
    }

    /// Years simulated.
    pub fn total_years(&self) -> (r: usize)
        ensures
            r == spec_total_years(*self),
    {
        let hy = self.hist_years();
        if self.current_age < self.start_age || self.target_age <= self.current_age {
            if hy >= 1 { hy } else { 1 }
        } else {
            let raw = if self.target_age >= self.start_age { self.target_age - self.start_age } else { 0 };
            let m = if raw >= hy { raw } else { hy };
            if m >= 1 { m } else { 1 }
        }
    }

    /// Years from now to the target.
    pub fn future_years(&self) -> (r: usize)
        ensures
            r == sat_sub(spec_total_years(*self), spec_hist_years(*self)),
    {
        let t = self.total_years();
        let h = self.hist_years();
        if t >= h { t - h } else { 0 }
    }

    /// Whether a return rate can be implied from the current assets: there is
    /// a history, the assets are not zero, and the current age is not before the start.
    pub fn can_infer_roi(&self, asset_is_zero: bool) -> (b: bool)
        requires
            spec_hist_years(*self) * 12 <= usize::MAX,
        ensures
            b == (spec_hist_years(*self) > 0 && !asset_is_zero && self.current_age >= self.start_age),
    {
        let hm = self.hist_years() * 12;
        !(hm == 0 || asset_is_zero || self.current_age < self.start_age)
    }

    /// Settles the start age when its input loses focus: the start is brought
    /// into `0..=150`, the current age raised to it if needed, and the target
    /// raised past the current age if needed.
    pub fn commit_start_age(&mut self)
        requires
            old(self).current_age < usize::MAX,
        ensures
            final(self).start_age == spec_clamp(old(self).start_age as int, 0, MAX_AGE as int),
            final(self).current_age == spec_max(old(self).current_age as int, final(self).start_age as int),
            final(self).target_age == if old(self).target_age <= final(self).current_age {
                final(self).current_age + 1
            } else {
                old(self).target_age as int
            },
            final(self).start_age <= final(self).current_age < final(self).target_age,
            final(self).start_age <= MAX_AGE,
    {
        let v = clamp(self.start_age, 0, MAX_AGE);
        self.start_age = v;
        if self.current_age < v {
            self.current_age = v;
        }
        if self.target_age <= self.current_age {
            self.target_age = self.current_age + 1;
        }
    }

    /// Settles the current age when its input loses focus: it is brought
    /// into `start..=150` and the target raised past it if needed.
    ///
    /// That range is empty for a start age above 150, on which the original
    /// program stops; hence the requirement.
    pub fn commit_current_age(&mut self)
        requires
            old(self).start_age <= MAX_AGE,
        ensures
            final(self).start_age == old(self).start_age,
            final(self).current_age == spec_clamp(old(self).current_age as int, old(self).start_age as int, MAX_AGE as int),
            final(self).target_age == if old(self).target_age <= final(self).current_age {
                final(self).current_age + 1
            } else {
                old(self).target_age as int
            },
            final(self).start_age <= final(self).current_age <= MAX_AGE,
            final(self).current_age < final(self).target_age,
    {
        let v = clamp(self.current_age, self.start_age, MAX_AGE);
        self.current_age = v;
        if self.target_age <= v {
            self.target_age = v + 1;
        }
    }

    /// Settles the target age when its input loses focus: it is brought into
    /// `current + 1..=150`.
    ///
    /// That range is empty for a current age of 150 or more, on which the
    /// original program stops; hence the requirement.
    pub fn commit_target_age(&mut self)
        requires
            old(self).current_age < MAX_AGE,
        ensures
            final(self).start_age == old(self).start_age,
            final(self).current_age == old(self).current_age,
            final(self).target_age == spec_clamp(old(self).target_age as int, old(self).current_age + 1, MAX_AGE as int),
            final(self).current_age < final(self).target_age <= MAX_AGE,
    {
        self.target_age = clamp(self.target_age, self.current_age + 1, MAX_AGE);
    }
}

/// The simulated years cover the history and at least one year, and the
/// years to the target are what lies beyond the history.
pub proof fn lemma_total_covers_history(a: AgeSettings)
    ensures
        spec_total_years(a) >= spec_hist_years(a),
        spec_total_years(a) >= 1,
        sat_sub(spec_total_years(a), spec_hist_years(a)) == spec_total_years(a) - spec_hist_years(a),
{
}

/// For ordered ages the timeline is exactly the ages' differences: history
/// from start to now, simulation from start to target, and the future from
/// now to the target.
pub proof fn lemma_ordered_ages_timeline(a: AgeSettings)
    requires
        ages_ordered(a),
    ensures
        spec_hist_years(a) == a.current_age - a.start_age,
        spec_total_years(a) == a.target_age - a.start_age,
        spec_total_years(a) - spec_hist_years(a) == a.target_age - a.current_age,
{
}

/// Committing the three inputs in order, from any state in which the
/// commits are defined, leaves the ages ordered.
pub proof fn lemma_commits_order_ages(a: AgeSettings, b: AgeSettings, c: AgeSettings, d: AgeSettings)
    requires
        a.current_age < usize::MAX,
        b.start_age == spec_clamp(a.start_age as int, 0, MAX_AGE as int),
        b.current_age == spec_max(a.current_age as int, b.start_age as int),
        b.target_age == if a.target_age <= b.current_age { b.current_age + 1 } else { a.target_age as int },
        c.start_age == b.start_age,
        c.current_age == spec_clamp(b.current_age as int, b.start_age as int, MAX_AGE as int),
        c.target_age == if b.target_age <= c.current_age { c.current_age + 1 } else { b.target_age as int },
        c.current_age < MAX_AGE,
        d.start_age == c.start_age,
        d.current_age == c.current_age,
        d.target_age == spec_clamp(c.target_age as int, c.current_age + 1, MAX_AGE as int),
    ensures
        ages_ordered(d),
{
}

/// The mode of the future plan.
#[derive(PartialEq, Eq, Structural, Clone, Copy, Debug)]
pub enum FutureMode {
    /// No more contributions: the assets compound alone.
    Stop,
    /// Keep contributing a nominal monthly amount.
    Invest,
    /// Withdraw a real (inflation-adjusted) monthly amount.
    Withdraw,
}

/// The name under which a mode is saved.
pub open spec fn stored_name_spec(m: FutureMode) -> Seq<char> {
    match m {
        FutureMode::Stop => "stop"@,
        FutureMode::Invest => "invest"@,
        FutureMode::Withdraw => "withdraw"@,
    }
}

/// The mode saved under a name: `invest` and `withdraw` name their modes,
/// anything else means stopping.
pub open spec fn from_stored_spec(s: Seq<char>) -> FutureMode {
    if s == "invest"@ {
        FutureMode::Invest
    } else if s == "withdraw"@ {
        FutureMode::Withdraw
    } else {
        FutureMode::Stop
    }
}

/// Whether two strings hold the same characters.
pub fn str_equal(a: &str, b: &str) -> (r: bool)
    ensures
        r == (a@ == b@),
{
    let n = a.unicode_len();
    if n != b.unicode_len() {
        return false;
    }
    let mut i: usize = 0;
    while i < n
        invariant
            n == a@.len(),
            n == b@.len(),
            i <= n,
            forall|j: int| 0 <= j < i ==> a@[j] == b@[j],
        decreases n - i,
    {
        if a.get_char(i) != b.get_char(i) {
            return false;
        }
        i = i + 1;
    }
    assert(a@ =~= b@);
    true
}

impl FutureMode {
    /// The name under which the mode is saved.
    pub fn stored_name(&self) -> (r: &'static str)
        ensures
            r@ == stored_name_spec(*self),
    {
        match self {
            FutureMode::Stop => "stop",
            FutureMode::Invest => "invest",
            FutureMode::Withdraw => "withdraw",
        }
    }

    /// The mode saved under a name.
    pub fn from_stored(s: &str) -> (m: FutureMode)
        ensures
            m == from_stored_spec(s@),
    {
        if str_equal(s, "invest") {
            FutureMode::Invest
        } else if str_equal(s, "withdraw") {
            FutureMode::Withdraw
        } else {
            FutureMode::Stop
        }
    }
}

/// Saving a mode and restoring it gives back the same mode.
pub proof fn lemma_future_mode_roundtrip(m: FutureMode)
    ensures
        from_stored_spec(stored_name_spec(m)) == m,
{
    reveal_strlit("stop");
    reveal_strlit("invest");
    reveal_strlit("withdraw");
    assert("stop"@.len() == 4);
    assert("invest"@.len() == 6);
    assert("withdraw"@.len() == 8);
}

/// The hint under the start age: whether investing has begun, and for how many years.
pub open spec fn invested_years_hint_text(hist_years: nat) -> Seq<char> {
    if hist_years == 0 {
        "剛要開始投資"@
    } else {
        "已投資 "@ + decimal(hist_years) + " 年"@
    }
}

/// The hint under the start age.
pub fn invested_years_hint(hist_years: usize) -> (r: String)
    ensures
        r@ == invested_years_hint_text(hist_years as nat),
{
    if hist_years == 0 {
        String::from_str("剛要開始投資")
    } else {
        let mut r = String::from_str("已投資 ");
        append_decimal(&mut r, hist_years as u128);
        r.append(" 年");
        r
    }
}

/// The hint under the current age: the years left to the target.
pub fn years_to_target_hint(future_years: usize) -> (r: String)
    ensures
        r@ == "距目標還有 "@ + decimal(future_years as nat) + " 年"@,
{
    let mut r = String::from_str("距目標還有 ");
    append_decimal(&mut r, future_years as u128);
    r.append(" 年");
    r
}

/// The hint under the target age: the years simulated.
pub fn simulated_years_hint(total_years: usize) -> (r: String)
    ensures
        r@ == "共模擬 "@ + decimal(total_years as nat) + " 年"@,
{
    let mut r = String::from_str("共模擬 ");
    append_decimal(&mut r, total_years as u128);
    r.append(" 年");
    r
}

/// The option of the inflation selector for `rate` percent a year.
pub open spec fn inflation_option_text(rate: nat) -> Seq<char> {
    if rate == 0 {
        "🚫 不考慮通膨 (0%)"@
    } else {
        "📉 通膨率："@ + decimal(rate) + "%/年"@
    }
}

/// The option of the inflation selector.
pub fn inflation_option_label(rate: usize) -> (r: String)
    ensures
        r@ == inflation_option_text(rate as nat),
{
    if rate == 0 {
        String::from_str("🚫 不考慮通膨 (0%)")
    } else {
        let mut r = String::from_str("📉 通膨率：");
        append_decimal(&mut r, rate as u128);
        r.append("%/年");
        r
    }
}

/// The hint under the future amount: the monthly amount, nominal when
/// investing and real when withdrawing; nothing when stopping.
pub open spec fn future_amount_hint_text(mode: FutureMode, amount: Seq<char>) -> Seq<char> {
    match mode {
        FutureMode::Invest => "= 未來每月名目投入 "@ + amount,
        FutureMode::Withdraw => "= 未來每月實質提領 "@ + amount,
        FutureMode::Stop => Seq::<char>::empty(),
    }
}

/// The hint under the future amount.
pub fn future_amount_hint(mode: FutureMode, amount: &str) -> (r: String)
    ensures
        r@ == future_amount_hint_text(mode, amount@),
{
    match mode {
        FutureMode::Invest => {
            let mut r = String::from_str("= 未來每月名目投入 ");
            r.append(amount);
            r
        },
        FutureMode::Withdraw => {
            let mut r = String::from_str("= 未來每月實質提領 ");
            r.append(amount);
            r
        },
        FutureMode::Stop => String::new(),
    }
}

/// The labels of the inputs that follow the ages, numbered on: with a
/// history the asset input is the fifth (after the history contribution),
/// otherwise the starting capital is the fourth.
pub fn asset_input_label(has_history: bool) -> (r: &'static str)
    ensures
        r@ == if has_history { "🎯 五：現有資產（萬元）"@ } else { "💰 四：起始資金（萬元）"@ },
{
    if has_history {
        "🎯 五：現有資產（萬元）"
    } else {
        "💰 四：起始資金（萬元）"
    }
}

/// The label of the future plan input.
pub fn future_input_label(has_history: bool) -> (r: &'static str)
    ensures
        r@ == if has_history { "🔵 六：未來計畫金額（千元）"@ } else { "🔵 五：未來計畫金額（千元）"@ },
{
    if has_history {
        "🔵 六：未來計畫金額（千元）"
    } else {
        "🔵 五：未來計畫金額（千元）"
    }
}

/// The label of the inflation input.
pub fn inflation_input_label(has_history: bool) -> (r: &'static str)
    ensures
        r@ == if has_history { "📉 七：未來通膨率"@ } else { "📉 六：未來通膨率"@ },
{
    if has_history {
        "📉 七：未來通膨率"
    } else {
        "📉 六：未來通膨率"
    }
}

/// Clamping gives a value inside the range, and leaves a value already in
/// the range unchanged.
pub proof fn lemma_clamp(v: int, lo: int, hi: int)
    requires
        lo <= hi,
    ensures
        lo <= spec_clamp(v, lo, hi) <= hi,
        lo <= v <= hi ==> spec_clamp(v, lo, hi) == v,
        v < lo ==> spec_clamp(v, lo, hi) == lo,
        v > hi ==> spec_clamp(v, lo, hi) == hi,
{
}

/// The hint under the future amount is empty when stopping, whatever the
/// amount; otherwise it ends with the amount, and investing and withdrawing
/// are told apart.
pub proof fn lemma_future_amount_hints(amount: Seq<char>, other: Seq<char>)
    ensures
        future_amount_hint_text(FutureMode::Stop, amount) == Seq::<char>::empty(),
        ({
            let t = future_amount_hint_text(FutureMode::Invest, amount);
            t.len() >= amount.len() && t.skip(t.len() - amount.len()) == amount
        }),
        ({
            let t = future_amount_hint_text(FutureMode::Withdraw, amount);
            t.len() >= amount.len() && t.skip(t.len() - amount.len()) == amount
        }),
        future_amount_hint_text(FutureMode::Invest, amount) != future_amount_hint_text(FutureMode::Withdraw, amount),
{
    reveal_strlit("= 未來每月名目投入 ");
    reveal_strlit("= 未來每月實質提領 ");
    let i = future_amount_hint_text(FutureMode::Invest, amount);
    let w = future_amount_hint_text(FutureMode::Withdraw, amount);
    assert(i.skip(i.len() - amount.len()) =~= amount);
    assert(w.skip(w.len() - amount.len()) =~= amount);
    assert(i[6] != w[6]);
}

/// Each mode is saved under its own name.
pub proof fn lemma_stored_names_distinct(a: FutureMode, b: FutureMode)
    ensures
        a != b ==> stored_name_spec(a) != stored_name_spec(b),
{
    lemma_future_mode_roundtrip(a);
    lemma_future_mode_roundtrip(b);
}

/// The hint under the start age tells a plan that has not begun apart from
/// one that has, and names the years invested.
pub proof fn lemma_invested_years_hint(n: nat)
    ensures
        n > 0 ==> invested_years_hint_text(n) != invested_years_hint_text(0),
        n > 0 ==> invested_years_hint_text(n) == "已投資 "@ + decimal(n) + " 年"@,
{
    reveal_strlit("剛要開始投資");
    reveal_strlit("已投資 ");
    if n > 0 {
        assert(invested_years_hint_text(n)[0] != invested_years_hint_text(0)[0]);
    }
}

/// The inflation option for 0% differs from every other option, and the
/// option for a positive rate names that rate.
pub proof fn lemma_inflation_options(rate: nat)
    ensures
        rate > 0 ==> inflation_option_text(rate) != inflation_option_text(0),
        rate > 0 ==> inflation_option_text(rate) == "📉 通膨率："@ + decimal(rate) + "%/年"@,
{
    reveal_strlit("🚫 不考慮通膨 (0%)");
    reveal_strlit("📉 通膨率：");
    if rate > 0 {
        assert(inflation_option_text(rate)[0] != inflation_option_text(0)[0]);
    }
}

} // verus!
