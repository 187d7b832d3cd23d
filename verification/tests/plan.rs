use financial_simulator::plot::{
    anchor_slot, annotation_age, annotation_kind, annotation_text, axis_ticks, chart_subtitle, chart_title,
    dividers, future_plan_text, hover_rows, hover_text, is_highlighted, line_weight, principal_label,
    principal_slot, route_color, settled_index, slot_color, trace_label, AnnotationKind, Divider, LineWeight,
    Sign,
};
use financial_simulator::routes::{age_at_month, route_len, route_plan, timeline, RouteSlot};

#[test]
fn test_calculate_true_pivot_trends_basic_structure() {
    // An anchor of 10.5% is not a whole rate: 21 whole rates plus the anchor.
    let plan = route_plan(10_500);
    assert_eq!(plan.len(), 22);
    for i in 0..plan.len() - 1 {
        assert!(plan[i].key <= plan[i + 1].key);
    }
    let t = timeline(5, 15);
    assert_eq!(route_len(&t), 15 * 12 + 1);
    let a = anchor_slot(&plan).expect("the anchor trajectory exists");
    assert_eq!(plan[a].key, 10_500);
}

#[test]
fn test_trend_route_exactly_one_anchor() {
    let plan = route_plan(7_000);
    assert_eq!(plan.iter().filter(|s| s.is_anchor).count(), 1);
}

#[test]
fn test_trend_route_integer_anchor_deduplication() {
    let plan = route_plan(10_000);
    assert_eq!(plan.len(), 21);
    assert_eq!(plan.iter().filter(|s| s.is_anchor).count(), 1);
}

#[test]
fn test_trend_route_sorted_ascending() {
    let plan = route_plan(8_370);
    for w in plan.windows(2) {
        assert!(w[0].key <= w[1].key);
    }
}

#[test]
fn route_plan_exact_contents() {
    let plan = route_plan(-5_000);
    assert_eq!(plan.len(), 22);
    assert_eq!(plan[0], RouteSlot { key: -5_000, is_anchor: true });
    for r in 0..=20 {
        assert_eq!(plan[r as usize + 1], RouteSlot { key: r * 1000, is_anchor: false });
    }
    let plan = route_plan(35_000);
    assert_eq!(plan[21], RouteSlot { key: 35_000, is_anchor: true });
    let plan = route_plan(0);
    assert_eq!(plan.len(), 21);
    assert_eq!(plan[0], RouteSlot { key: 0, is_anchor: true });
    assert_eq!(principal_slot(&plan), None);
    let plan = route_plan(7_000);
    assert_eq!(plan[7], RouteSlot { key: 7_000, is_anchor: true });
    assert_eq!(principal_slot(&plan), Some(0));
}

#[test]
fn timeline_months() {
    let t = timeline(10, 30);
    assert_eq!((t.hist_months, t.total_months, t.future_months), (120, 360, 240));
    assert_eq!(route_len(&t), 361);
    let t = timeline(12, 10);
    assert_eq!(t.future_months, 0);
    assert_eq!(route_len(&t), 145);
    assert_eq!(age_at_month(30, 27), (32, 3));
    assert_eq!(age_at_month(30, 24), (32, 0));
}

#[test]
fn colors_and_weights() {
    assert_eq!(route_color(0), "rgba(50, 80, 255, 0.8)");
    assert_eq!(route_color(20), "rgba(210, 180, 255, 0.8)");
    assert_eq!(slot_color(&RouteSlot { key: 3000, is_anchor: false }), "rgba(74, 95, 255, 0.8)");
    assert_eq!(slot_color(&RouteSlot { key: 8500, is_anchor: true }), "#F43F5E");
    assert_eq!(slot_color(&RouteSlot { key: 25000, is_anchor: false }), "rgba(100,100,255,0.5)");
    assert!(is_highlighted(&RouteSlot { key: 15000, is_anchor: false }));
    assert!(!is_highlighted(&RouteSlot { key: 14000, is_anchor: false }));
    assert_eq!(line_weight(&RouteSlot { key: 14000, is_anchor: true }), LineWeight::Focus);
    assert_eq!(line_weight(&RouteSlot { key: 10000, is_anchor: false }), LineWeight::Marked);
    assert_eq!(line_weight(&RouteSlot { key: 11000, is_anchor: false }), LineWeight::Background);
}

#[test]
fn hover_box_rows_and_text() {
    let plan = route_plan(6_500);
    assert_eq!(hover_rows(&plan, 36, 36), vec![7]);
    let after = hover_rows(&plan, 37, 36);
    assert_eq!(after.len(), 22);
    assert_eq!(after[0], 21);
    assert_eq!(after[21], 0);
    let rows = vec!["A".to_string(), "B".to_string()];
    assert_eq!(
        hover_text(35, 27, &rows),
        "<b>🎯 實際年齡：37 歲 3 個月</b> (第 2 年)<br>────────────────────────<br>A<br>B"
    );
    assert_eq!(hover_text(35, 24, &Vec::new()), "<b>🎯 實際年齡：37 歲整</b> (第 2 年)<br>────────────────────────");
}

#[test]
fn legend_labels() {
    assert_eq!(trace_label("ROI 8.50%", true, false), "ROI 8.50% 主線");
    assert_eq!(trace_label("ROI   10%", false, false), "ROI   10% 未來");
    assert_eq!(trace_label("ROI   10%", false, true), "ROI   10%");
    assert_eq!(principal_label(true), "ROI    0%");
    assert_eq!(principal_label(false), "ROI    0% 本金");
    assert_eq!(future_plan_text(Sign::Positive, "2萬"), "每月改投名目 2萬");
    assert_eq!(future_plan_text(Sign::Negative, "8,000元"), "每月提領實質 8,000元");
    assert_eq!(future_plan_text(Sign::Zero, "0元"), "不再投入(利滾利)");
}

#[test]
fn chart_titles() {
    let narrow = chart_subtitle(true, 35, 2, 10, "1.2萬", "28.8萬", "每月提領實質 8,000元", 2);
    assert_eq!(
        narrow,
        "<br><span style='font-size: 11px; color: #2DD4BF;'>起始 35歲 | 現況 37歲 | 每月提領實質 8,000元</span>"
    );
    let wide = chart_subtitle(false, 35, 2, 10, "1.2萬", "28.8萬", "不再投入(利滾利)", 2);
    assert_eq!(
        wide,
        "<br><span style='font-size: 13px; color: #2DD4BF; letter-spacing: 0.5px;'>📊 戰略配置 ── 起始 35歲 (1.2萬/月 已投入 28.8萬) | 現況 37歲 | 目標 45歲 [不再投入(利滾利)] | 折現通膨 2%/年</span>"
    );
    let no_history = chart_subtitle(false, 30, 0, 10, "1萬", "0元", "不再投入(利滾利)", 0);
    assert!(no_history.contains("(1萬/月) | 現況 30歲"));
    assert_eq!(chart_title("X"), "<b>人生財務戰航模擬器</b>X");
}

#[test]
fn age_axis() {
    let ticks = axis_ticks(35, 2, 10);
    assert_eq!(ticks.len(), 3);
    assert_eq!((ticks[0].age, ticks[0].label.as_str()), (35, "🎬 35 歲"));
    assert_eq!((ticks[1].age, ticks[1].label.as_str()), (37, "📍 37 歲 (結算)"));
    assert_eq!((ticks[2].age, ticks[2].label.as_str()), (45, "🏁 45 歲 (終點)"));
    let ticks = axis_ticks(30, 0, 10);
    assert_eq!(ticks.len(), 2);
    assert_eq!(ticks[0].label, "🎯 30 歲");
    assert_eq!(ticks[1].label, "🏁 40 歲 (終點)");

    let lines = dividers(35, 2, 10);
    assert_eq!(
        lines,
        vec![
            Divider { half_years: 72, is_now: false },
            Divider { half_years: 74, is_now: true },
            Divider { half_years: 82, is_now: false },
            Divider { half_years: 90, is_now: false },
        ]
    );
    let lines = dividers(30, 0, 10);
    assert_eq!(
        lines,
        vec![
            Divider { half_years: 60, is_now: false },
            Divider { half_years: 70, is_now: false },
            Divider { half_years: 80, is_now: false },
        ]
    );
}

#[test]
fn chart_marker() {
    assert_eq!(annotation_kind(3, Sign::Zero), Some(AnnotationKind::Settlement));
    assert_eq!(annotation_kind(0, Sign::Positive), Some(AnnotationKind::StartingFunds));
    assert_eq!(annotation_kind(0, Sign::Negative), Some(AnnotationKind::StartingDebt));
    assert_eq!(annotation_kind(0, Sign::Zero), None);
    assert_eq!(annotation_age(AnnotationKind::Settlement, 30, 5), 35);
    assert_eq!(annotation_age(AnnotationKind::StartingFunds, 30, 5), 30);
    assert_eq!(annotation_text(AnnotationKind::Settlement, Some("8.35"), "500萬"), "📍 現況錨定 (8.35%): 500萬");
    assert_eq!(annotation_text(AnnotationKind::Settlement, None, "500萬"), "📍 現況結算: 500萬");
    assert_eq!(annotation_text(AnnotationKind::StartingFunds, None, "100萬"), "💰 起始資金: 100萬");
    assert_eq!(annotation_text(AnnotationKind::StartingDebt, None, "100萬"), "⚠️ 起始負債: 100萬");
    assert_eq!(settled_index(5, 181), Some(60));
    assert_eq!(settled_index(20, 181), None);
}

use financial_simulator::simulation::{history_entry, month_rule, CashFlow, HistoryEntry, MonthRule};

#[test]
fn month_rules() {
    assert_eq!(history_entry(0, 0), HistoryEntry::Settlement);
    assert_eq!(history_entry(0, 60), HistoryEntry::Empty);
    assert_eq!(history_entry(30, 60), HistoryEntry::Compounded);
    assert_eq!(history_entry(60, 60), HistoryEntry::Settlement);
    assert_eq!(month_rule(true, true), MonthRule { cash_flow: CashFlow::Nominal, earns_return: true });
    assert_eq!(month_rule(false, true), MonthRule { cash_flow: CashFlow::InflationAdjusted, earns_return: true });
    assert_eq!(month_rule(false, false), MonthRule { cash_flow: CashFlow::InflationAdjusted, earns_return: false });
}
