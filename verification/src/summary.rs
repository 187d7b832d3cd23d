//! The sentence that summarises a plan above the chart: where it starts, what
//! it does from now on, and what it ends with.

use vstd::prelude::*;
use crate::settings::FutureMode;
use crate::text::{append_decimal, decimal};

verus! {

/// What is done from now on, with the monthly amount for investing and withdrawing.
pub open spec fn future_desc_text(mode: FutureMode, amount: Seq<char>) -> Seq<char> {
    match mode {
        FutureMode::Stop => "未來不再投入"@,
        FutureMode::Invest => "未來每月投入 "@ + amount,
        FutureMode::Withdraw => "未來每月提領 "@ + amount,
    }
}

/// What is done from now on.
pub fn future_desc(mode: FutureMode, amount: &str) -> (r: String)
    ensures
        r@ == future_desc_text(mode, amount@),
{
    match mode {
        FutureMode::Stop => String::from_str("未來不再投入"),
        FutureMode::Invest => {
            let mut r = String::from_str("未來每月投入 ");
            r.append(amount);
            r
        },
        FutureMode::Withdraw => {
            let mut r = String::from_str("未來每月提領 ");
            r.append(amount);
            r
        },
    }
}

/// The warning for assets that run out `month` months after the start age:
/// the age reached then, with the extra months when there are any.
pub open spec fn depletion_text(start_age: nat, month: nat) -> Seq<char> {
    let age = start_age + month / 12;
    let months = month % 12;
    if months > 0 {
        "🚨 警告：依此提領速度與模擬回報，資產預計將在 <strong style='color:#F43F5E;'>"@ + decimal(age) + " 歲 "@
            + decimal(months) + " 個月</strong> 時提早耗盡歸零！"@
    } else {
        "🚨 警告：依此提領速度與模擬回報，資產預計將在 <strong style='color:#F43F5E;'>"@ + decimal(age)
            + " 歲整</strong> 時提早耗盡歸零！"@
    }
}

/// How the plan ends. When the final nominal value is not positive the assets
/// run out: the warning names the first month in which they are negative, if
/// the trajectory has one, and otherwise gives the final value. Otherwise the
/// final nominal value, followed by its real value when inflation is shown.
pub open spec fn end_text_spec(
    depleted: bool,
    first_negative_month: Option<nat>,
    start_age: nat,
    inflation_rate: nat,
    nominal: Seq<char>,
    real_value: Seq<char>,
) -> Seq<char> {
    if depleted {
        match first_negative_month {
            Some(b) => depletion_text(start_age, b),
            None => "⚠️ 資產恐將耗盡（名目終值 "@ + nominal + "）"@,
        }
    } else {
        "資產累積名目約 <strong>"@ + nominal + "</strong>"@ + (if inflation_rate > 0 {
            "，實質購買力約 <strong>"@ + real_value + "</strong>"@
        } else {
            Seq::<char>::empty()
        })
    }
}

/// The view of an optional month.
pub open spec fn opt_nat(m: Option<usize>) -> Option<nat> {
    match m {
        Some(b) => Some(b as nat),
        None => None,
    }
}

/// Builds how the plan ends (see [`end_text_spec`]).
pub fn end_text(
    depleted: bool,
    first_negative_month: Option<usize>,
    start_age: usize,
    inflation_rate: usize,
    nominal: &str,
    real_value: &str,
) -> (r: String)
    requires
        first_negative_month matches Some(b) ==> start_age + b / 12 <= usize::MAX,
    ensures
        r@ == end_text_spec(depleted, opt_nat(first_negative_month), start_age as nat, inflation_rate as nat, nominal@, real_value@),
{
    if depleted {
        match first_negative_month {
            Some(b) => {
                let age = start_age + b / 12;
                let months = b % 12;
                let mut r = String::from_str(
                    "🚨 警告：依此提領速度與模擬回報，資產預計將在 <strong style='color:#F43F5E;'>",
                );
                append_decimal(&mut r, age as u128);
                if months > 0 {
                    r.append(" 歲 ");
                    append_decimal(&mut r, months as u128);
                    r.append(" 個月</strong> 時提早耗盡歸零！");
                } else {
                    r.append(" 歲整</strong> 時提早耗盡歸零！");
                }
                r
            },
            None => {
                let mut r = String::from_str("⚠️ 資產恐將耗盡（名目終值 ");
                r.append(nominal);
                r.append("）");
                r
            },
        }
    } else {
        let mut r = String::from_str("資產累積名目約 <strong>");
        r.append(nominal);
        r.append("</strong>");
        let ghost before = r@;
        if inflation_rate > 0 {
            r.append("，實質購買力約 <strong>");
            r.append(real_value);
            r.append("</strong>");
            assert(r@ =~= before + ("，實質購買力約 <strong>"@ + real_value@ + "</strong>"@));
        } else {
            assert(r@ =~= before + Seq::<char>::empty());
        }
        r
    }
}

/// The style of the implied rate: red for a loss, white otherwise.
pub open spec fn rate_style(negative: bool) -> Seq<char> {
    if negative {
        "style='color: #F43F5E; font-weight: bold;'"@
    } else {
        "style='color: #FFFFFF; font-weight: bold;'"@
    }
}

/// The note on the current assets: nothing when they are zero; otherwise the
/// assets, with the implied annual rate when it is known.
pub open spec fn asset_note_text(assets: Option<Seq<char>>, rate: Option<Seq<char>>, rate_negative: bool) -> Seq<char> {
    match assets {
        None => Seq::<char>::empty(),
        Some(a) => match rate {
            Some(r) => "，現有資產 <strong>"@ + a + "</strong> (≈隱含年化 <span "@ + rate_style(rate_negative) + ">"@ + r
                + "%</span>)"@,
            None => "，現有資產 <strong>"@ + a + "</strong>"@,
        },
    }
}

/// The view of an optional text.
pub open spec fn opt_text(t: Option<&str>) -> Option<Seq<char>> {
    match t {
        Some(s) => Some(s@),
        None => None,
    }
}

/// Builds the note on the current assets (see [`asset_note_text`]).
pub fn asset_note(assets: Option<&str>, rate: Option<&str>, rate_negative: bool) -> (r: String)
    ensures
        r@ == asset_note_text(opt_text(assets), opt_text(rate), rate_negative),
{
    match assets {
        None => String::new(),
        Some(a) => {
            let mut r = String::from_str("，現有資產 <strong>");
            r.append(a);
            match rate {
                Some(t) => {
                    r.append("</strong> (≈隱含年化 <span ");
                    if rate_negative {
                        r.append("style='color: #F43F5E; font-weight: bold;'");
                    } else {
                        r.append("style='color: #FFFFFF; font-weight: bold;'");
                    }
                    r.append(">");
                    r.append(t);
                    r.append("%</span>)");
                },
                None => {
                    r.append("</strong>");
                },
            }
            r
        },
    }
}

/// The three kinds of plan that the summary tells apart.
#[derive(PartialEq, Eq, Structural, Clone, Copy, Debug)]
pub enum Scenario {
    /// No history and no starting capital.
    FromScratch,
    /// No history, a single starting capital.
    LumpSum,
    /// Investing has gone on for some years.
    WithHistory,
}

/// The kind of a plan.
pub open spec fn scenario_spec(hist_years: nat, lump_is_zero: bool) -> Scenario {
    if hist_years == 0 {
        if lump_is_zero { Scenario::FromScratch } else { Scenario::LumpSum }
    } else {
        Scenario::WithHistory
    }
}

/// The kind of a plan.
pub fn scenario(hist_years: usize, lump_is_zero: bool) -> (s: Scenario)
    ensures
        s == scenario_spec(hist_years as nat, lump_is_zero),
{
    if hist_years == 0 {
        if lump_is_zero {
            Scenario::FromScratch
        } else {
            Scenario::LumpSum
        }
    } else {
        Scenario::WithHistory
    }
}

/// The closing part shared by the plans without history: the rate assumed,
/// the target age, and how the plan ends.
pub open spec fn closing_text(rate: Seq<char>, target_age: nat, ending: Seq<char>) -> Seq<char> {
    " <strong>"@ + rate + "%</strong> 在 <strong>"@ + decimal(target_age) + "</strong> 歲時，<span>"@ + ending + "</span>"@
}

/// The summary of a plan that starts from nothing: from birth, or from the
/// start age; then the future plan, the assumed rate, the target and the end.
pub open spec fn from_scratch_text(
    start_age: nat,
    target_age: nat,
    future: Seq<char>,
    rate: Seq<char>,
    ending: Seq<char>,
) -> Seq<char> {
    (if start_age == 0 {
        "👶 幫新生兒從 0 歲白手起家 — "@
    } else {
        "📊 規劃從 "@ + decimal(start_age) + " 歲出發 — "@
    }) + future + "，以系統基準預估年化回報"@ + closing_text(rate, target_age, ending)
}

/// The summary of a plan that starts with a single capital.
pub open spec fn lump_sum_text(
    start_age: nat,
    target_age: nat,
    capital: Seq<char>,
    future: Seq<char>,
    rate: Seq<char>,
    ending: Seq<char>,
) -> Seq<char> {
    (if start_age == 0 {
        "👶 幫小孩從 0 歲配置 — "@
    } else {
        "💰 規劃從 "@ + decimal(start_age) + " 歲配置 — "@
    }) + "<span>起始本金 <strong>"@ + capital + "</strong></span>，"@ + future + "，並以基準預估年化回報"@
        + closing_text(rate, target_age, ending)
}

/// The summary of a plan with a history: the monthly contribution since the
/// start age and its total, the years invested, the note on the current
/// assets, then the new strategy (continuing the implied rate when it is
/// known, the assumed rate otherwise), the target and the end.
pub open spec fn with_history_text(
    start_age: nat,
    target_age: nat,
    hist_years: nat,
    monthly: Seq<char>,
    invested: Seq<char>,
    asset_note: Seq<char>,
    rate_known: bool,
    future: Seq<char>,
    rate: Seq<char>,
    ending: Seq<char>,
) -> Seq<char> {
    "自 "@ + decimal(start_age) + " 歲起每月投資 "@ + monthly + " 共投入 <strong>"@ + invested + "</strong>，至今已投 "@
        + decimal(hist_years) + " 年<span>"@ + asset_note + "</span>"@ + (if rate_known {
        "。延續此回報率並調整戰略為："@ + future + "，期望在 "@
    } else {
        "。目前無隱含報酬，調整戰略為："@ + future + "，並以基準預估年化回報 "@ + rate + "% 期望在 "@
    }) + "<strong>"@ + decimal(target_age) + "</strong> 歲時，<span>"@ + ending + "</span>"@
}

/// Appends the closing part shared by the plans without history.
fn push_closing(r: &mut String, rate: &str, target_age: usize, ending: &str)
    ensures
        final(r)@ == old(r)@ + closing_text(rate@, target_age as nat, ending@),
{
    let ghost before = r@;
    r.append(" <strong>");
    r.append(rate);
    r.append("%</strong> 在 <strong>");
    append_decimal(r, target_age as u128);
    r.append("</strong> 歲時，<span>");
    r.append(ending);
    r.append("</span>");
    assert(r@ =~= before + closing_text(rate@, target_age as nat, ending@));
}

/// Builds the summary of a plan that starts from nothing.
pub fn summary_from_scratch(start_age: usize, target_age: usize, future: &str, rate: &str, ending: &str) -> (r: String)
    ensures
        r@ == from_scratch_text(start_age as nat, target_age as nat, future@, rate@, ending@),
{
    let mut r = if start_age == 0 {
        String::from_str("👶 幫新生兒從 0 歲白手起家 — ")
    } else {
        let mut r = String::from_str("📊 規劃從 ");
        append_decimal(&mut r, start_age as u128);
        r.append(" 歲出發 — ");
        r
    };
    r.append(future);
    r.append("，以系統基準預估年化回報");
    push_closing(&mut r, rate, target_age, ending);
    r
}

/// Builds the summary of a plan that starts with a single capital.
pub fn summary_lump_sum(
    start_age: usize,
    target_age: usize,
    capital: &str,
    future: &str,
    rate: &str,
    ending: &str,
) -> (r: String)
    ensures
        r@ == lump_sum_text(start_age as nat, target_age as nat, capital@, future@, rate@, ending@),
{
    let mut r = if start_age == 0 {
        String::from_str("👶 幫小孩從 0 歲配置 — ")
    } else {
        let mut r = String::from_str("💰 規劃從 ");
        append_decimal(&mut r, start_age as u128);
        r.append(" 歲配置 — ");
        r
    };
    r.append("<span>起始本金 <strong>");
    r.append(capital);
    r.append("</strong></span>，");
    r.append(future);
    r.append("，並以基準預估年化回報");
    push_closing(&mut r, rate, target_age, ending);
    r
}

/// Builds the summary of a plan with a history.
pub fn summary_with_history(
    start_age: usize,
    target_age: usize,
    hist_years: usize,
    monthly: &str,
    invested: &str,
    asset_note: &str,
    rate_known: bool,
    future: &str,
    rate: &str,
    ending: &str,
) -> (r: String)
    ensures
        r@ == with_history_text(
            start_age as nat,
            target_age as nat,
            hist_years as nat,
            monthly@,
            invested@,
            asset_note@,
            rate_known,
            future@,
            rate@,
            ending@,
        ),
{
    let mut r = String::from_str("自 ");
    append_decimal(&mut r, start_age as u128);
    r.append(" 歲起每月投資 ");
    r.append(monthly);
    r.append(" 共投入 <strong>");
    r.append(invested);
    r.append("</strong>，至今已投 ");
    append_decimal(&mut r, hist_years as u128);
    r.append(" 年<span>");
    r.append(asset_note);
    r.append("</span>");
    let ghost before = r@;
    if rate_known {
        r.append("。延續此回報率並調整戰略為：");
        r.append(future);
        r.append("，期望在 ");
        assert(r@ =~= before + ("。延續此回報率並調整戰略為："@ + future@ + "，期望在 "@));
    } else {
        r.append("。目前無隱含報酬，調整戰略為：");
        r.append(future);
        r.append("，並以基準預估年化回報 ");
        r.append(rate);
        r.append("% 期望在 ");
        assert(r@ =~= before + ("。目前無隱含報酬，調整戰略為："@ + future@ + "，並以基準預估年化回報 "@ + rate@ + "% 期望在 "@));
    }
    r.append("<strong>");
    append_decimal(&mut r, target_age as u128);
    r.append("</strong> 歲時，<span>");
    r.append(ending);
    r.append("</span>");
    r
}

/// Any plan with a history, whatever its capital, is told as a plan with a
/// history; a single starting capital is told only for a plan without history
/// whose capital is not zero, and a plan starting from nothing only for one
/// without history and without capital.
pub proof fn lemma_scenario_kinds()
    ensures
        forall|h: nat, z: bool| h > 0 ==> #[trigger] scenario_spec(h, z) == Scenario::WithHistory,
        forall|h: nat, z: bool| #[trigger] scenario_spec(h, z) == Scenario::LumpSum <==> (h == 0 && !z),
        forall|h: nat, z: bool| #[trigger] scenario_spec(h, z) == Scenario::FromScratch <==> (h == 0 && z),
        forall|h: nat, z: bool| #[trigger] scenario_spec(h, z) == Scenario::WithHistory <==> h > 0,
{
}

/// Stopping mentions no amount; investing and withdrawing both end with the
/// amount and are told apart.
pub proof fn lemma_future_desc_texts(amount: Seq<char>, other: Seq<char>)
    ensures
        future_desc_text(FutureMode::Stop, amount) == future_desc_text(FutureMode::Stop, other),
        ({
            let t = future_desc_text(FutureMode::Invest, amount);
            t.len() >= amount.len() && t.skip(t.len() - amount.len()) == amount
        }),
        ({
            let t = future_desc_text(FutureMode::Withdraw, amount);
            t.len() >= amount.len() && t.skip(t.len() - amount.len()) == amount
        }),
        future_desc_text(FutureMode::Invest, amount) != future_desc_text(FutureMode::Withdraw, amount),
{
    reveal_strlit("未來每月投入 ");
    reveal_strlit("未來每月提領 ");
    let i = future_desc_text(FutureMode::Invest, amount);
    let w = future_desc_text(FutureMode::Withdraw, amount);
    assert(i.skip(i.len() - amount.len()) =~= amount);
    assert(w.skip(w.len() - amount.len()) =~= amount);
    assert(i[4] != w[4]);
}

/// The depletion warning names the age reached: running out `b` months after
/// the start age is told as running out `b % 12` months after the age
/// `start + b / 12`.
pub proof fn lemma_depletion_age(start_age: nat, b: nat)
    ensures
        depletion_text(start_age, b) == depletion_text(start_age + b / 12, b % 12),
        depletion_text(start_age + 1, b) == depletion_text(start_age, b + 12),
{
    assert((b % 12) / 12 == 0);
    assert((b % 12) % 12 == b % 12);
    assert((b + 12) / 12 == b / 12 + 1);
    assert((b + 12) % 12 == b % 12);
}

/// What the ending depends on: a depletion with a known month names only the
/// age, not the amounts nor the inflation; a depletion without one gives the
/// nominal final value only; a plan that does not run out ignores the month,
/// and shows the real value only when inflation is shown.
pub proof fn lemma_end_text_inputs(
    month: Option<nat>,
    other_month: Option<nat>,
    start_age: nat,
    other_start: nat,
    inflation: nat,
    other_inflation: nat,
    nominal: Seq<char>,
    other_nominal: Seq<char>,
    real_value: Seq<char>,
    other_real: Seq<char>,
)
    ensures
        month is Some ==> end_text_spec(true, month, start_age, inflation, nominal, real_value) == end_text_spec(
            true,
            month,
            start_age,
            other_inflation,
            other_nominal,
            other_real,
        ),
        end_text_spec(true, None, start_age, inflation, nominal, real_value) == end_text_spec(
            true,
            None,
            other_start,
            other_inflation,
            nominal,
            other_real,
        ),
        end_text_spec(false, month, start_age, inflation, nominal, real_value) == end_text_spec(
            false,
            other_month,
            other_start,
            inflation,
            nominal,
            real_value,
        ),
        end_text_spec(false, month, start_age, 0, nominal, real_value) == end_text_spec(
            false,
            month,
            start_age,
            0,
            nominal,
            other_real,
        ),
        inflation > 0 ==> end_text_spec(false, month, start_age, inflation, nominal, real_value)
            == end_text_spec(false, month, start_age, 0, nominal, real_value) + "，實質購買力約 <strong>"@ + real_value
            + "</strong>"@,
{
    let base = "資產累積名目約 <strong>"@ + nominal + "</strong>"@;
    assert(base + Seq::<char>::empty() =~= base);
}

/// The note on zero assets is empty whatever the rate; with assets but no
/// rate the colour of the rate plays no part.
pub proof fn lemma_asset_note_inputs(a: Seq<char>, rate: Option<Seq<char>>, n: bool, other_n: bool)
    ensures
        asset_note_text(None, rate, n) == Seq::<char>::empty(),
        asset_note_text(Some(a), None, n) == asset_note_text(Some(a), None, other_n),
        rate is Some ==> asset_note_text(Some(a), rate, true) != asset_note_text(Some(a), rate, false),
{
    reveal_strlit("style='color: #F43F5E; font-weight: bold;'");
    reveal_strlit("style='color: #FFFFFF; font-weight: bold;'");
    reveal_strlit("，現有資產 <strong>");
    reveal_strlit("</strong> (≈隱含年化 <span ");
    if rate is Some {
        let pre = "，現有資產 <strong>"@ + a + "</strong> (≈隱含年化 <span "@;
        let t = asset_note_text(Some(a), rate, true);
        let f = asset_note_text(Some(a), rate, false);
        let r = rate->0;
        assert(t =~= pre + (rate_style(true) + (">"@ + r + "%</span>)"@)));
        assert(f =~= pre + (rate_style(false) + (">"@ + r + "%</span>)"@)));
        assert(t[pre.len() as int + 16] == rate_style(true)[16]);
        assert(f[pre.len() as int + 16] == rate_style(false)[16]);
        assert(t[pre.len() as int + 16] != f[pre.len() as int + 16]);
    }
}

/// When the implied rate is known the history sentence does not state the
/// assumed rate.
pub proof fn lemma_history_sentence_rate(
    start_age: nat,
    target_age: nat,
    hist_years: nat,
    monthly: Seq<char>,
    invested: Seq<char>,
    note: Seq<char>,
    future: Seq<char>,
    rate: Seq<char>,
    other_rate: Seq<char>,
    ending: Seq<char>,
)
    ensures
        with_history_text(start_age, target_age, hist_years, monthly, invested, note, true, future, rate, ending)
            == with_history_text(start_age, target_age, hist_years, monthly, invested, note, true, future, other_rate, ending),
{
}

/// Every summary sentence ends with how the plan ends, closing its span.
pub proof fn lemma_sentences_end_with_ending(
    start_age: nat,
    target_age: nat,
    hist_years: nat,
    capital: Seq<char>,
    monthly: Seq<char>,
    invested: Seq<char>,
    note: Seq<char>,
    rate_known: bool,
    future: Seq<char>,
    rate: Seq<char>,
    ending: Seq<char>,
)
    ensures
        ({
            let tail = ending + "</span>"@;
            let a = from_scratch_text(start_age, target_age, future, rate, ending);
            let b = lump_sum_text(start_age, target_age, capital, future, rate, ending);
            let c = with_history_text(start_age, target_age, hist_years, monthly, invested, note, rate_known, future, rate, ending);
            &&& a.len() >= tail.len() && a.skip(a.len() - tail.len()) == tail
            &&& b.len() >= tail.len() && b.skip(b.len() - tail.len()) == tail
            &&& c.len() >= tail.len() && c.skip(c.len() - tail.len()) == tail
        }),
{
    let tail = ending + "</span>"@;
    let a = from_scratch_text(start_age, target_age, future, rate, ending);
    let b = lump_sum_text(start_age, target_age, capital, future, rate, ending);
    let c = with_history_text(start_age, target_age, hist_years, monthly, invested, note, rate_known, future, rate, ending);
    let ca = " <strong>"@ + rate + "%</strong> 在 <strong>"@ + decimal(target_age) + "</strong> 歲時，<span>"@;
    assert(closing_text(rate, target_age, ending) =~= ca + tail);
    assert(a.skip(a.len() - tail.len()) =~= tail);
    assert(b.skip(b.len() - tail.len()) =~= tail);
    assert(c.skip(c.len() - tail.len()) =~= tail);
}

} // verus!
