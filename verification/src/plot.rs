//! The layout of the chart: colours, line weights and legend entries of the
//! trajectories, the rows of the hover box, the age ticks and the dividing lines.

use vstd::prelude::*;
use crate::routes::RouteSlot;
use crate::text::{append_decimal, decimal};

verus! {

/// The sign of an amount.
#[derive(PartialEq, Eq, Structural, Clone, Copy, Debug)]
pub enum Sign {
    Negative,
    Zero,
    Positive,
}

/// The colour of the trajectory of the whole rate `i`: from blue (0%) to violet (20%).
pub open spec fn route_color_text(i: nat) -> Seq<char> {
    "rgba("@ + decimal(50 + i * 8) + ", "@ + decimal(80 + i * 5) + ", 255, 0.8)"@
}

/// The colour of the trajectory of the whole rate `i`.
pub fn route_color(i: usize) -> (r: String)
    ensures
        r@ == route_color_text(i as nat),
{
    let mut r = String::from_str("rgba(");
    append_decimal(&mut r, 50 + (i as u128) * 8);
    r.append(", ");
    append_decimal(&mut r, 80 + (i as u128) * 5);
    r.append(", 255, 0.8)");
    r
}

/// The whole rate below a slot's rate (0 for negative rates).
pub open spec fn floor_rate(slot: RouteSlot) -> int {
    if slot.key < 0 { 0 } else { slot.key / 1000 }
}

/// The colour of a trajectory: the anchor in red, a whole rate up to 20% in
/// its own shade, anything else in a pale blue.
pub open spec fn slot_color_text(slot: RouteSlot) -> Seq<char> {
    if slot.is_anchor {
        "#F43F5E"@
    } else if floor_rate(slot) <= 20 {
        route_color_text(floor_rate(slot) as nat)
    } else {
        "rgba(100,100,255,0.5)"@
    }
}

/// The colour of a trajectory.
pub fn slot_color(slot: &RouteSlot) -> (r: String)
    ensures
        r@ == slot_color_text(*slot),
{
    if slot.is_anchor {
        String::from_str("#F43F5E")
    } else {
        let f: i32 = if slot.key < 0 { 0 } else { slot.key / 1000 };
        if f <= 20 {
            route_color(f as usize)
        } else {
            String::from_str("rgba(100,100,255,0.5)")
        }
    }
}

/// Whether a trajectory is highlighted and listed in the legend: the anchor,
/// and the whole rates 5%, 10%, 15% and 20%.
pub open spec fn spec_is_highlighted(slot: RouteSlot) -> bool {
    slot.is_anchor || slot.key == 5000 || slot.key == 10000 || slot.key == 15000 || slot.key == 20000
}

/// Whether a trajectory is highlighted and listed in the legend.
pub fn is_highlighted(slot: &RouteSlot) -> (b: bool)
    ensures
        b == spec_is_highlighted(*slot),
{
    slot.is_anchor || slot.key == 5000 || slot.key == 10000 || slot.key == 15000 || slot.key == 20000
}

/// How thick a trajectory is drawn.
#[derive(PartialEq, Eq, Structural, Clone, Copy, Debug)]
pub enum LineWeight {
    /// The anchor trajectory, the focus of the chart.
    Focus,
    /// A highlighted whole rate.
    Marked,
    /// Any other trajectory, a thin background line.
    Background,
}

/// The weight of a trajectory's line.
pub open spec fn spec_line_weight(slot: RouteSlot) -> LineWeight {
    if slot.is_anchor {
        LineWeight::Focus
    } else if spec_is_highlighted(slot) {
        LineWeight::Marked
    } else {
        LineWeight::Background
    }
}

/// The weight of a trajectory's line.
pub fn line_weight(slot: &RouteSlot) -> (w: LineWeight)
    ensures
        w == spec_line_weight(*slot),
{
    if slot.is_anchor {
        LineWeight::Focus
    } else if is_highlighted(slot) {
        LineWeight::Marked
    } else {
        LineWeight::Background
    }
}

/// The index of the 0% trajectory that is drawn again as the dashed line of
/// the bare principal: the first slot of key 0 that is not the anchor.
pub fn principal_slot(plan: &Vec<RouteSlot>) -> (r: Option<usize>)
    ensures
        match r {
            Some(i) => i < plan@.len() && plan@[i as int].key == 0 && !plan@[i as int].is_anchor
                && forall|j: int| 0 <= j < i ==> !(plan@[j].key == 0 && !plan@[j].is_anchor),
            None => forall|j: int| 0 <= j < plan@.len() ==> !(plan@[j].key == 0 && !plan@[j].is_anchor),
        },
{
    let mut i: usize = 0;
    while i < plan.len()
        invariant
            i <= plan@.len(),
            forall|j: int| 0 <= j < i ==> !(plan@[j].key == 0 && !plan@[j].is_anchor),
        decreases plan@.len() - i,
    {
        if plan[i].key == 0 && !plan[i].is_anchor {
            return Some(i);
        }
        i = i + 1;
    }
    None
}

/// The index of the first anchor trajectory of a plan.
pub fn anchor_slot(plan: &Vec<RouteSlot>) -> (r: Option<usize>)
    ensures
        match r {
            Some(i) => i < plan@.len() && plan@[i as int].is_anchor
                && forall|j: int| 0 <= j < i ==> !plan@[j].is_anchor,
            None => forall|j: int| 0 <= j < plan@.len() ==> !plan@[j].is_anchor,
        },
{
    let mut i: usize = 0;
    while i < plan.len()
        invariant
            i <= plan@.len(),
            forall|j: int| 0 <= j < i ==> !plan@[j].is_anchor,
        decreases plan@.len() - i,
    {
        if plan[i].is_anchor {
            return Some(i);
        }
        i = i + 1;
    }
    None
}

/// The trajectories that get a row in the hover box at month `m`: up to the
/// settlement month only the anchor (its first slot, if any); after it every
/// trajectory, from the highest rate down.
pub open spec fn hover_rows_spec(plan: Seq<RouteSlot>, m: nat, hist_months: nat, rows: Seq<usize>) -> bool {
    if m <= hist_months {
        (exists|a: int| 0 <= a < plan.len() && plan[a].is_anchor && (forall|j: int| 0 <= j < a ==> !plan[j].is_anchor)
            && rows == seq![a as usize])
        || ((forall|j: int| 0 <= j < plan.len() ==> !plan[j].is_anchor) && rows.len() == 0)
    } else {
        rows.len() == plan.len() && forall|k: int| 0 <= k < rows.len() ==> rows[k] == plan.len() - 1 - k
    }
}

/// The indices of the trajectories shown in the hover box at month `m`.
pub fn hover_rows(plan: &Vec<RouteSlot>, m: usize, hist_months: usize) -> (rows: Vec<usize>)
    ensures
        hover_rows_spec(plan@, m as nat, hist_months as nat, rows@),
{
    let mut rows: Vec<usize> = Vec::new();
    if m <= hist_months {
        match anchor_slot(plan) {
            Some(a) => {
                rows.push(a);
                assert(rows@ =~= seq![a]);
            },
            None => {},
        }
    } else {
        let n = plan.len();
        let mut k: usize = 0;
        while k < n
            invariant
                n == plan@.len(),
                k <= n,
                rows@.len() == k,
                forall|q: int| 0 <= q < k ==> rows@[q] == n - 1 - q,
            decreases n - k,
        {
            rows.push(n - 1 - k);
            k = k + 1;
        }
    }
    rows
}

/// The legend label of a trajectory: on narrow screens the rate label alone,
/// otherwise the rate label marked `主線` (main line) for the anchor and
/// `未來` (future) for the others.
pub open spec fn trace_label_text(rate_label: Seq<char>, is_anchor: bool, is_narrow: bool) -> Seq<char> {
    if is_narrow {
        rate_label
    } else if is_anchor {
        rate_label + " 主線"@
    } else {
        rate_label + " 未來"@
    }
}

/// The legend label of a trajectory.
pub fn trace_label(rate_label: &str, is_anchor: bool, is_narrow: bool) -> (r: String)
    ensures
        r@ == trace_label_text(rate_label@, is_anchor, is_narrow),
{
    let mut r = String::from_str(rate_label);
    if !is_narrow {
        if is_anchor {
            r.append(" 主線");
        } else {
            r.append(" 未來");
        }
    }
    r
}

/// The rate label of the principal line.
pub fn principal_label(is_narrow: bool) -> (r: &'static str)
    ensures
        r@ == if is_narrow { "ROI    0%"@ } else { "ROI    0% 本金"@ },
{
    if is_narrow {
        "ROI    0%"
    } else {
        "ROI    0% 本金"
    }
}

/// The description of the future plan, by the sign of the monthly cash flow:
/// a nominal contribution, a real withdrawal (of the given absolute amount),
/// or letting the assets compound alone.
pub open spec fn future_plan_text_spec(flow: Sign, amount: Seq<char>) -> Seq<char> {
    match flow {
        Sign::Positive => "每月改投名目 "@ + amount,
        Sign::Negative => "每月提領實質 "@ + amount,
        Sign::Zero => "不再投入(利滾利)"@,
    }
}

/// The description of the future plan.
pub fn future_plan_text(flow: Sign, amount: &str) -> (r: String)
    ensures
        r@ == future_plan_text_spec(flow, amount@),
{
    match flow {
        Sign::Positive => {
            let mut r = String::from_str("每月改投名目 ");
            r.append(amount);
            r
        },
        Sign::Negative => {
            let mut r = String::from_str("每月提領實質 ");
            r.append(amount);
            r
        },
        Sign::Zero => String::from_str("不再投入(利滾利)"),
    }
}

/// The subtitle of the chart: the ages of start, settlement and (on wide
/// screens) target, the monthly contribution of the history with its total
/// when there is a history, the future plan, and the inflation rate used for discounting.
pub open spec fn subtitle_text(
    is_narrow: bool,
    start_age: nat,
    hist_years: nat,
    total_years: nat,
    monthly: Seq<char>,
    invested: Seq<char>,
    plan: Seq<char>,
    inflation_rate: nat,
) -> Seq<char> {
    if is_narrow {
        "<br><span style='font-size: 11px; color: #2DD4BF;'>起始 "@ + decimal(start_age) + "歲 | 現況 "@
            + decimal(start_age + hist_years) + "歲 | "@ + plan + "</span>"@
    } else {
        "<br><span style='font-size: 13px; color: #2DD4BF; letter-spacing: 0.5px;'>📊 戰略配置 ── 起始 "@
            + decimal(start_age) + "歲 ("@ + monthly + "/月"@
            + (if hist_years > 0 { " 已投入 "@ + invested } else { Seq::<char>::empty() })
            + ") | 現況 "@ + decimal(start_age + hist_years) + "歲 | 目標 "@ + decimal(start_age + total_years)
            + "歲 ["@ + plan + "] | 折現通膨 "@ + decimal(inflation_rate) + "%/年</span>"@
    }
}

/// The title of the chart.
pub open spec fn title_text(subtitle: Seq<char>) -> Seq<char> {
    "<b>人生財務戰航模擬器</b>"@ + subtitle
}

/// Builds the subtitle of the chart (see [`subtitle_text`]).
pub fn chart_subtitle(
    is_narrow: bool,
    start_age: usize,
    hist_years: usize,
    total_years: usize,
    monthly: &str,
    invested: &str,
    plan: &str,
    inflation_rate: usize,
) -> (r: String)
    requires
        start_age + hist_years <= usize::MAX,
        start_age + total_years <= usize::MAX,
    ensures
        r@ == subtitle_text(
            is_narrow,
            start_age as nat,
            hist_years as nat,
            total_years as nat,
            monthly@,
            invested@,
            plan@,
            inflation_rate as nat,
        ),
{
    if is_narrow {
        let mut r = String::from_str("<br><span style='font-size: 11px; color: #2DD4BF;'>起始 ");
        append_decimal(&mut r, start_age as u128);
        r.append("歲 | 現況 ");
        append_decimal(&mut r, (start_age + hist_years) as u128);
        r.append("歲 | ");
        r.append(plan);
        r.append("</span>");
        r
    } else {
        let mut r = String::from_str(
            "<br><span style='font-size: 13px; color: #2DD4BF; letter-spacing: 0.5px;'>📊 戰略配置 ── 起始 ",
        );
        append_decimal(&mut r, start_age as u128);
        r.append("歲 (");
        r.append(monthly);
        r.append("/月");
        let ghost before = r@;
        if hist_years > 0 {
            r.append(" 已投入 ");
            r.append(invested);
            assert(r@ =~= before + (" 已投入 "@ + invested@));
        } else {
            assert(r@ =~= before + Seq::<char>::empty());
        }
        r.append(") | 現況 ");
        append_decimal(&mut r, (start_age + hist_years) as u128);
        r.append("歲 | 目標 ");
        append_decimal(&mut r, (start_age + total_years) as u128);
        r.append("歲 [");
        r.append(plan);
        r.append("] | 折現通膨 ");
        append_decimal(&mut r, inflation_rate as u128);
        r.append("%/年</span>");
        r
    }
}

/// Builds the title of the chart around its subtitle.
pub fn chart_title(subtitle: &str) -> (r: String)
    ensures
        r@ == title_text(subtitle@),
{
    let mut r = String::from_str("<b>人生財務戰航模擬器</b>");
    r.append(subtitle);
    r
}

/// The heading of the hover box at month `m`: the age reached, with the
/// extra months when there are any, and the number of whole years simulated.
pub open spec fn month_header_text(start_age: nat, m: nat) -> Seq<char> {
    let age = start_age + m / 12;
    let months = m % 12;
    let years = m / 12;
    if months > 0 {
        "<b>🎯 實際年齡："@ + decimal(age) + " 歲 "@ + decimal(months) + " 個月</b> (第 "@ + decimal(years)
            + " 年)"@
    } else {
        "<b>🎯 實際年齡："@ + decimal(age) + " 歲整</b> (第 "@ + decimal(years) + " 年)"@
    }
}

/// The line below the heading of the hover box.
pub open spec fn separator_text() -> Seq<char> {
    "────────────────────────"@
}

/// Rows joined, each preceded by a line break.
pub open spec fn joined_rows(rows: Seq<Seq<char>>) -> Seq<char>
    decreases rows.len(),
{
    if rows.len() == 0 {
        Seq::<char>::empty()
    } else {
        joined_rows(rows.drop_last()) + "<br>"@ + rows.last()
    }
}

/// The text of the hover box: heading, separator and rows, one per line.
pub open spec fn hover_text_spec(start_age: nat, m: nat, rows: Seq<Seq<char>>) -> Seq<char> {
    month_header_text(start_age, m) + "<br>"@ + separator_text() + joined_rows(rows)
}

/// Builds the text of the hover box at month `m`.
pub fn hover_text(start_age: usize, m: usize, rows: &Vec<String>) -> (r: String)
    requires
        start_age + m / 12 <= usize::MAX,
    ensures
        r@ == hover_text_spec(start_age as nat, m as nat, rows@.map_values(|s: String| s@)),
{
    let age = start_age + m / 12;
    let months = m % 12;
    let years = m / 12;
    let mut r = String::from_str("<b>🎯 實際年齡：");
    append_decimal(&mut r, age as u128);
    if months > 0 {
        r.append(" 歲 ");
        append_decimal(&mut r, months as u128);
        r.append(" 個月</b> (第 ");
    } else {
        r.append(" 歲整</b> (第 ");
    }
    append_decimal(&mut r, years as u128);
    r.append(" 年)");
    assert(r@ =~= month_header_text(start_age as nat, m as nat));
    r.append("<br>");
    r.append("────────────────────────");
    let ghost head = r@;
    let ghost views = rows@.map_values(|s: String| s@);
    let mut k: usize = 0;
    while k < rows.len()
        invariant
            k <= rows@.len(),
            views == rows@.map_values(|s: String| s@),
            r@ == head + joined_rows(views.take(k as int)),
        decreases rows@.len() - k,
    {
        r.append("<br>");
        r.append(rows[k].as_str());
        assert(views.take(k + 1).drop_last() =~= views.take(k as int));
        assert(views.take(k + 1).last() == rows@[k as int]@);
        k = k + 1;
        assert(r@ =~= head + joined_rows(views.take(k as int)));
    }
    assert(views.take(rows@.len() as int) =~= views);
    r
}

/// A labelled tick of the age axis.
pub struct AxisTick {
    pub age: usize,
    pub label: String,
}

/// Whether the chart shows a history ending at a settlement age.
pub open spec fn shows_settlement(hist_years: nat, total_years: nat) -> bool {
    hist_years > 0 && total_years >= hist_years
}

/// The ticks of the age axis: start, settlement and end when there is a
/// history within the simulated years; otherwise start and end.
pub open spec fn axis_ticks_spec(start_age: nat, hist_years: nat, total_years: nat, ticks: Seq<AxisTick>) -> bool {
    if shows_settlement(hist_years, total_years) {
        &&& ticks.len() == 3
        &&& ticks[0].age == start_age && ticks[0].label@ == "🎬 "@ + decimal(start_age) + " 歲"@
        &&& ticks[1].age == start_age + hist_years
            && ticks[1].label@ == "📍 "@ + decimal(start_age + hist_years) + " 歲 (結算)"@
        &&& ticks[2].age == start_age + total_years
            && ticks[2].label@ == "🏁 "@ + decimal(start_age + total_years) + " 歲 (終點)"@
    } else {
        &&& ticks.len() == 2
        &&& ticks[0].age == start_age && ticks[0].label@ == "🎯 "@ + decimal(start_age) + " 歲"@
        &&& ticks[1].age == start_age + total_years
            && ticks[1].label@ == "🏁 "@ + decimal(start_age + total_years) + " 歲 (終點)"@
    }
}

/// One labelled tick.
fn tick(age: usize, prefix: &str, suffix: &str) -> (t: AxisTick)
    ensures
        t.age == age,
        t.label@ == prefix@ + decimal(age as nat) + suffix@,
{
    let mut label = String::from_str(prefix);
    append_decimal(&mut label, age as u128);
    label.append(suffix);
    AxisTick { age, label }
}

/// The ticks of the age axis.
pub fn axis_ticks(start_age: usize, hist_years: usize, total_years: usize) -> (ticks: Vec<AxisTick>)
    requires
        start_age + hist_years <= usize::MAX,
        start_age + total_years <= usize::MAX,
    ensures
        axis_ticks_spec(start_age as nat, hist_years as nat, total_years as nat, ticks@),
{
    let mut ticks: Vec<AxisTick> = Vec::new();
    if hist_years > 0 && total_years >= hist_years {
        ticks.push(tick(start_age, "🎬 ", " 歲"));
        ticks.push(tick(start_age + hist_years, "📍 ", " 歲 (結算)"));
        ticks.push(tick(start_age + total_years, "🏁 ", " 歲 (終點)"));
    } else {
        ticks.push(tick(start_age, "🎯 ", " 歲"));
        ticks.push(tick(start_age + total_years, "🏁 ", " 歲 (終點)"));
    }
    ticks
}

/// A vertical dividing line, placed at an age counted in half years; the line
/// of the settlement age ("now") is drawn solid red, the others dashed.
#[derive(PartialEq, Eq, Structural, Clone, Copy, Debug)]
pub struct Divider {
    pub half_years: usize,
    pub is_now: bool,
}

/// The dividing lines: with a history within the simulated years, the middle
/// of the history, the settlement, the middle of the future and the end;
/// otherwise the start, the middle and the end. A line is "now" when there is
/// a history and it stands at the settlement age.
pub open spec fn dividers_spec(start_age: nat, hist_years: nat, total_years: nat, lines: Seq<Divider>) -> bool {
    let s = start_age as int;
    let h = hist_years as int;
    let t = total_years as int;
    let positions: Seq<int> = if shows_settlement(hist_years, total_years) {
        seq![2 * s + h, 2 * (s + h), 2 * (s + h) + (t - h), 2 * (s + t)]
    } else {
        seq![2 * s, 2 * s + t, 2 * (s + t)]
    };
    &&& lines.len() == positions.len()
    &&& forall|i: int| 0 <= i < lines.len() ==> (#[trigger] lines[i]).half_years == positions[i]
        && lines[i].is_now == (h > 0 && positions[i] == 2 * (s + h))
}

/// The dividing lines of the chart.
pub fn dividers(start_age: usize, hist_years: usize, total_years: usize) -> (lines: Vec<Divider>)
    requires
        2 * (start_age + hist_years) <= usize::MAX,
        2 * (start_age + total_years) <= usize::MAX,
    ensures
        dividers_spec(start_age as nat, hist_years as nat, total_years as nat, lines@),
{
    let now = 2 * (start_age + hist_years);
    let mut positions: Vec<usize> = Vec::new();
    if hist_years > 0 && total_years >= hist_years {
        positions.push(2 * start_age + hist_years);
        positions.push(now);
        positions.push(now + (total_years - hist_years));
        positions.push(2 * (start_age + total_years));
    } else {
        positions.push(2 * start_age);
        positions.push(2 * start_age + total_years);
        positions.push(2 * (start_age + total_years));
    }
    let ghost sa = start_age as int;
    let ghost h = hist_years as int;
    let ghost t = total_years as int;
    let ghost expected: Seq<int> = if shows_settlement(hist_years as nat, total_years as nat) {
        seq![2 * sa + h, 2 * (sa + h), 2 * (sa + h) + (t - h), 2 * (sa + t)]
    } else {
        seq![2 * sa, 2 * sa + t, 2 * (sa + t)]
    };
    assert(positions@.len() == expected.len());
    assert(forall|i: int| 0 <= i < expected.len() ==> positions@[i] == expected[i]);
    let mut lines: Vec<Divider> = Vec::new();
    let mut i: usize = 0;
    while i < positions.len()
        invariant
            i <= positions@.len(),
            positions@.len() == expected.len(),
            forall|j: int| 0 <= j < expected.len() ==> positions@[j] == expected[j],
            now == 2 * (start_age + hist_years),
            lines@.len() == i,
            forall|j: int| 0 <= j < i ==> (#[trigger] lines@[j]).half_years == expected[j]
                && lines@[j].is_now == (hist_years > 0 && expected[j] == 2 * (start_age + hist_years)),
        decreases positions@.len() - i,
    {
        let p = positions[i];
        lines.push(Divider { half_years: p, is_now: hist_years > 0 && p == now });
        i = i + 1;
    }
    lines
}

/// What the marker of the chart points at.
#[derive(PartialEq, Eq, Structural, Clone, Copy, Debug)]
pub enum AnnotationKind {
    /// The settlement of the history: the current assets.
    Settlement,
    /// The starting capital of a plan without history.
    StartingFunds,
    /// The starting debt of a plan without history.
    StartingDebt,
}

/// The marker of the chart: the settlement when there is a history;
/// otherwise the starting capital or debt when the lump sum is not zero;
/// otherwise none.
pub open spec fn annotation_kind_spec(hist_years: nat, lump_sum: Sign) -> Option<AnnotationKind> {
    if hist_years > 0 {
        Some(AnnotationKind::Settlement)
    } else {
        match lump_sum {
            Sign::Positive => Some(AnnotationKind::StartingFunds),
            Sign::Negative => Some(AnnotationKind::StartingDebt),
            Sign::Zero => None,
        }
    }
}

/// The marker of the chart.
pub fn annotation_kind(hist_years: usize, lump_sum: Sign) -> (k: Option<AnnotationKind>)
    ensures
        k == annotation_kind_spec(hist_years as nat, lump_sum),
{
    if hist_years > 0 {
        Some(AnnotationKind::Settlement)
    } else {
        match lump_sum {
            Sign::Positive => Some(AnnotationKind::StartingFunds),
            Sign::Negative => Some(AnnotationKind::StartingDebt),
            Sign::Zero => None,
        }
    }
}

/// The age at which the marker stands: the settlement age, or the start age.
pub open spec fn annotation_age_spec(kind: AnnotationKind, start_age: nat, hist_years: nat) -> int {
    if kind == AnnotationKind::Settlement { (start_age + hist_years) as int } else { start_age as int }
}

/// The age at which the marker stands.
pub fn annotation_age(kind: AnnotationKind, start_age: usize, hist_years: usize) -> (age: usize)
    requires
        start_age + hist_years <= usize::MAX,
    ensures
        age == annotation_age_spec(kind, start_age as nat, hist_years as nat),
{
    match kind {
        AnnotationKind::Settlement => start_age + hist_years,
        _ => start_age,
    }
}

/// The text of the marker: for the settlement, the implied rate (when known)
/// and the current assets; otherwise the starting capital or debt (written
/// as a positive amount).
pub open spec fn annotation_text_spec(kind: AnnotationKind, rate: Option<Seq<char>>, amount: Seq<char>) -> Seq<char> {
    match kind {
        AnnotationKind::Settlement => match rate {
            Some(r) => "📍 現況錨定 ("@ + r + "%): "@ + amount,
            None => "📍 現況結算: "@ + amount,
        },
        AnnotationKind::StartingFunds => "💰 起始資金: "@ + amount,
        AnnotationKind::StartingDebt => "⚠️ 起始負債: "@ + amount,
    }
}

/// The view of an optional text.
pub open spec fn opt_view(t: Option<&str>) -> Option<Seq<char>> {
    match t {
        Some(s) => Some(s@),
        None => None,
    }
}

/// Builds the text of the marker.
pub fn annotation_text(kind: AnnotationKind, rate: Option<&str>, amount: &str) -> (r: String)
    ensures
        r@ == annotation_text_spec(kind, opt_view(rate), amount@),
{
    let mut r = match kind {
        AnnotationKind::Settlement => match rate {
            Some(t) => {
                let mut r = String::from_str("📍 現況錨定 (");
                r.append(t);
                r.append("%): ");
                r
            },
            None => String::from_str("📍 現況結算: "),
        },
        AnnotationKind::StartingFunds => String::from_str("💰 起始資金: "),
        AnnotationKind::StartingDebt => String::from_str("⚠️ 起始負債: "),
    };
    r.append(amount);
    r
}

/// The index of the settlement month in a trajectory of `len` entries, when
/// the trajectory reaches it.
pub fn settled_index(hist_years: usize, len: usize) -> (r: Option<usize>)
    requires
        hist_years * 12 <= usize::MAX,
    ensures
        r == if hist_years * 12 < len { Some((hist_years * 12) as usize) } else { None::<usize> },
{
    let idx = hist_years * 12;
    if idx < len {
        Some(idx)
    } else {
        None
    }
}

/// With a history the marker is always the settlement, whatever the sign of
/// the lump sum; without history it is the starting capital for a positive
/// lump sum, the starting debt for a negative one, and there is none for zero.
pub proof fn lemma_annotation_kinds()
    ensures
        forall|h: nat, s: Sign| h > 0 ==> #[trigger] annotation_kind_spec(h, s) == Some(AnnotationKind::Settlement),
        annotation_kind_spec(0, Sign::Positive) == Some(AnnotationKind::StartingFunds),
        annotation_kind_spec(0, Sign::Negative) == Some(AnnotationKind::StartingDebt),
        annotation_kind_spec(0, Sign::Zero) == None::<AnnotationKind>,
        forall|h: nat, s: Sign| #[trigger] annotation_kind_spec(h, s) == Some(AnnotationKind::Settlement) <==> h > 0,
{
}

/// The highlighted trajectories are the anchor and the whole rates 5%, 10%,
/// 15% and 20%: each of those four is highlighted whether or not it is the
/// anchor, and every other non-anchor whole rate is not.
pub proof fn lemma_highlighted_rates()
    ensures
        forall|r: int, a: bool| (r == 5 || r == 10 || r == 15 || r == 20) ==> #[trigger] spec_is_highlighted(
            RouteSlot { key: (r * 1000) as i32, is_anchor: a },
        ),
        forall|k: i32| #[trigger] spec_is_highlighted(RouteSlot { key: k, is_anchor: true }),
        forall|r: int| 0 <= r <= 20 && r != 5 && r != 10 && r != 15 && r != 20 ==> !#[trigger] spec_is_highlighted(
            RouteSlot { key: (r * 1000) as i32, is_anchor: false },
        ),
{
    assert forall|r: int, a: bool| (r == 5 || r == 10 || r == 15 || r == 20) implies #[trigger] spec_is_highlighted(
        RouteSlot { key: (r * 1000) as i32, is_anchor: a },
    ) by {
        assert(((r * 1000) as i32) == r * 1000);
    }
    assert forall|r: int| 0 <= r <= 20 && r != 5 && r != 10 && r != 15 && r != 20 implies !#[trigger] spec_is_highlighted(
        RouteSlot { key: (r * 1000) as i32, is_anchor: false },
    ) by {
        assert(((r * 1000) as i32) == r * 1000);
    }
}

/// The anchor is drawn as the focus line; any other trajectory is drawn as a
/// marked line exactly when it is highlighted, and as a background line otherwise.
pub proof fn lemma_line_weights(slot: RouteSlot)
    ensures
        slot.is_anchor <==> spec_line_weight(slot) == LineWeight::Focus,
        !slot.is_anchor ==> (spec_line_weight(slot) == LineWeight::Marked <==> spec_is_highlighted(slot)),
        spec_line_weight(slot) == LineWeight::Background ==> !spec_is_highlighted(slot),
{
}

/// The anchor is drawn in red whatever its rate; the trajectory of the
/// whole rate `r` (0..=20) is drawn in the shade of `r`, and different whole
/// rates get different shades.
pub proof fn lemma_slot_colors()
    ensures
        forall|k: i32| #[trigger] slot_color_text(RouteSlot { key: k, is_anchor: true }) == "#F43F5E"@,
        forall|r: int| 0 <= r <= 20 ==> #[trigger] slot_color_text(RouteSlot { key: (r * 1000) as i32, is_anchor: false })
            == route_color_text(r as nat),
        forall|r: nat, q: nat| r != q ==> #[trigger] route_color_text(r) != #[trigger] route_color_text(q),
{
    assert forall|r: int| 0 <= r <= 20 implies #[trigger] slot_color_text(RouteSlot { key: (r * 1000) as i32, is_anchor: false })
        == route_color_text(r as nat) by {
        assert(((r * 1000) as i32) == r * 1000);
    }
    assert forall|r: nat, q: nat| r != q implies #[trigger] route_color_text(r) != #[trigger] route_color_text(q) by {
        lemma_route_color_injective(r, q);
    }
}

/// Different whole rates get different colour texts.
proof fn lemma_route_color_injective(r: nat, q: nat)
    requires
        r != q,
    ensures
        route_color_text(r) != route_color_text(q),
{
    reveal_strlit("rgba(");
    reveal_strlit(", ");
    let a = route_color_text(r);
    let b = route_color_text(q);
    let pre = "rgba("@;
    let dr = decimal(50 + r * 8);
    let dq = decimal(50 + q * 8);
    let ra = ", "@ + decimal(80 + r * 5) + ", 255, 0.8)"@;
    let rb = ", "@ + decimal(80 + q * 5) + ", 255, 0.8)"@;
    crate::text::lemma_decimal_value(50 + r * 8);
    crate::text::lemma_decimal_value(50 + q * 8);
    crate::text::lemma_decimal_no_comma_digits(50 + r * 8);
    crate::text::lemma_decimal_no_comma_digits(50 + q * 8);
    assert(a =~= pre + (dr + ra));
    assert(b =~= pre + (dq + rb));
    assert(pre.len() == 5);
    if a == b {
        // The red component is the run of digits between `rgba(` and the first comma.
        if dr.len() == dq.len() {
            assert(dr =~= a.subrange(5, 5 + dr.len() as int));
            assert(dq =~= b.subrange(5, 5 + dq.len() as int));
        } else if dr.len() < dq.len() {
            assert(a[5 + dr.len() as int] == ra[0]);
            assert(b[5 + dr.len() as int] == dq[dr.len() as int]);
            assert(crate::text::is_digit_char(dq[dr.len() as int]));
        } else {
            assert(b[5 + dq.len() as int] == rb[0]);
            assert(a[5 + dq.len() as int] == dr[dq.len() as int]);
            assert(crate::text::is_digit_char(dr[dq.len() as int]));
        }
    }
}

/// On narrow screens the legend label is the rate label itself; on wide
/// screens it starts with the rate label and the anchor's label differs from
/// that of any other trajectory.
pub proof fn lemma_trace_labels(label: Seq<char>)
    ensures
        forall|a: bool| #[trigger] trace_label_text(label, a, true) == label,
        trace_label_text(label, true, false).take(label.len() as int) == label,
        trace_label_text(label, false, false).take(label.len() as int) == label,
        trace_label_text(label, true, false) != trace_label_text(label, false, false),
{
    reveal_strlit(" 主線");
    reveal_strlit(" 未來");
    assert(trace_label_text(label, true, false).take(label.len() as int) =~= label);
    assert(trace_label_text(label, false, false).take(label.len() as int) =~= label);
    assert(trace_label_text(label, true, false)[label.len() as int + 1] != trace_label_text(label, false, false)[label.len() as int + 1]);
}

/// Letting the assets compound alone mentions no amount; a contribution and
/// a withdrawal both end with the amount and are told apart.
pub proof fn lemma_future_plan_texts(amount: Seq<char>, other: Seq<char>)
    ensures
        future_plan_text_spec(Sign::Zero, amount) == future_plan_text_spec(Sign::Zero, other),
        ({
            let t = future_plan_text_spec(Sign::Positive, amount);
            t.len() >= amount.len() && t.skip(t.len() - amount.len()) == amount
        }),
        ({
            let t = future_plan_text_spec(Sign::Negative, amount);
            t.len() >= amount.len() && t.skip(t.len() - amount.len()) == amount
        }),
        future_plan_text_spec(Sign::Positive, amount) != future_plan_text_spec(Sign::Negative, amount),
{
    reveal_strlit("每月改投名目 ");
    reveal_strlit("每月提領實質 ");
    let p = future_plan_text_spec(Sign::Positive, amount);
    let n = future_plan_text_spec(Sign::Negative, amount);
    assert(p.skip(p.len() - amount.len()) =~= amount);
    assert(n.skip(n.len() - amount.len()) =~= amount);
    assert(p[2] != n[2]);
}

/// The narrow subtitle shows neither the monthly contribution, its total,
/// the target nor the inflation; the wide subtitle of a plan without history
/// does not show the invested total.
pub proof fn lemma_subtitle_contents(
    start_age: nat,
    hist_years: nat,
    total_years: nat,
    other_total: nat,
    monthly: Seq<char>,
    other_monthly: Seq<char>,
    invested: Seq<char>,
    other_invested: Seq<char>,
    plan: Seq<char>,
    inflation: nat,
    other_inflation: nat,
)
    ensures
        subtitle_text(true, start_age, hist_years, total_years, monthly, invested, plan, inflation) == subtitle_text(
            true,
            start_age,
            hist_years,
            other_total,
            other_monthly,
            other_invested,
            plan,
            other_inflation,
        ),
        subtitle_text(false, start_age, 0, total_years, monthly, invested, plan, inflation) == subtitle_text(
            false,
            start_age,
            0,
            total_years,
            monthly,
            other_invested,
            plan,
            inflation,
        ),
{
}

/// Whether index `i` occurs among the rows.
pub open spec fn lists_index(rows: Seq<usize>, i: int) -> bool {
    exists|k: int| 0 <= k < rows.len() && rows[k] == i
}

/// In a plan of trajectories, up to the settlement the hover box has one row,
/// that of the anchor; after it the box has a row for every trajectory, each once.
pub proof fn lemma_hover_rows_of_plan(
    plan: Seq<RouteSlot>,
    anchor_key: int,
    m: nat,
    hist_months: nat,
    rows: Seq<usize>,
)
    requires
        crate::routes::is_route_plan(plan, anchor_key),
        hover_rows_spec(plan, m, hist_months, rows),
    ensures
        m <= hist_months ==> rows.len() == 1 && rows[0] < plan.len() && plan[rows[0] as int].key == anchor_key,
        m > hist_months ==> rows.len() == plan.len() && forall|i: int|
            0 <= i < plan.len() ==> #[trigger] lists_index(rows, i),
{
    crate::routes::lemma_exactly_one_anchor(plan, anchor_key);
    if m > hist_months {
        assert forall|i: int| 0 <= i < plan.len() implies #[trigger] lists_index(rows, i) by {
            assert(rows[plan.len() - 1 - i] == i);
        }
    }
}

/// Every marker text ends with the amount; the starting capital and debt do
/// not mention a rate, and the settlement does so exactly when one is known.
pub proof fn lemma_annotation_texts(kind: AnnotationKind, rate: Option<Seq<char>>, other: Option<Seq<char>>, amount: Seq<char>)
    ensures
        ({
            let t = annotation_text_spec(kind, rate, amount);
            t.len() >= amount.len() && t.skip(t.len() - amount.len()) == amount
        }),
        kind != AnnotationKind::Settlement ==> annotation_text_spec(kind, rate, amount) == annotation_text_spec(kind, other, amount),
{
    let t = annotation_text_spec(kind, rate, amount);
    assert(t.skip(t.len() - amount.len()) =~= amount);
}

/// With a history inside the simulated years the settlement line is "now";
/// when the target lies after the settlement it is the only such line.
/// Without history no line is "now".
pub proof fn lemma_now_divider(start_age: nat, hist_years: nat, total_years: nat, lines: Seq<Divider>)
    requires
        dividers_spec(start_age, hist_years, total_years, lines),
    ensures
        shows_settlement(hist_years, total_years) ==> lines[1].is_now,
        shows_settlement(hist_years, total_years) && total_years > hist_years ==> forall|i: int|
            0 <= i < lines.len() && i != 1 ==> !(#[trigger] lines[i]).is_now,
        hist_years == 0 ==> forall|i: int| 0 <= i < lines.len() ==> !(#[trigger] lines[i]).is_now,
{
    if shows_settlement(hist_years, total_years) {
        assert(lines[1].is_now);
    }
}

/// The settlement marker stands `hist_years` after the start; the markers of
/// a starting capital or debt stand at the start age itself.
pub proof fn lemma_annotation_ages(start_age: nat, hist_years: nat)
    ensures
        annotation_age_spec(AnnotationKind::Settlement, start_age, hist_years) - start_age == hist_years,
        annotation_age_spec(AnnotationKind::StartingFunds, start_age, hist_years) == start_age,
        annotation_age_spec(AnnotationKind::StartingDebt, start_age, hist_years) == start_age,
{
}

} // verus!
