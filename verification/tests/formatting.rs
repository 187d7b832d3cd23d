use financial_simulator::labels::{fmt_roi_label, make_clean_text_row};
use financial_simulator::number::{format_with_commas, Decimal};
use financial_simulator::twd::{format_twd_financial, twd_form, unit_size, TwdForm, TwdMagnitude, TwdUnit};

/// Rounds a float to `precision` decimals the way the simulator does before writing it.
fn decimal_of(val: f64, precision: usize) -> Decimal {
    let factor = 10.0_f64.powi(precision as i32);
    Decimal {
        negative: val < 0.0,
        scaled: (val.abs() * factor).round() as u128,
        precision,
    }
}

fn commas(val: f64, precision: usize) -> String {
    format_with_commas(&decimal_of(val, precision))
}

fn twd(val: f64) -> String {
    let abs_val = val.abs();
    let abs_wan = (val / 10_000.0).abs();
    let form = twd_form(&TwdMagnitude {
        at_least_yi: abs_val >= 100_000_000.0,
        at_least_wan: abs_val >= 10_000.0,
        wan_is_whole: (abs_wan - abs_wan.round()).abs() < 0.01,
    });
    let counted = val / unit_size(form.unit) as f64;
    format_twd_financial(form.unit, &decimal_of(counted, form.precision))
}

fn roi_label(roi_pct: f64, is_major: bool) -> String {
    fmt_roi_label(&format!("{:.2}", roi_pct), roi_pct as usize, is_major)
}

#[test]
fn test_format_with_commas_basic() {
    assert_eq!(commas(1234.56, 1), "1,234.6");
    assert_eq!(commas(1000000.0, 0), "1,000,000");
    assert_eq!(commas(-500.55, 1), "-500.6");
    assert_eq!(commas(0.0, 2), "0.00");
}

#[test]
fn format_with_commas_exact_values() {
    let d = Decimal { negative: false, scaled: 1234567890, precision: 2 };
    assert_eq!(format_with_commas(&d), "12,345,678.90");
    let d = Decimal { negative: true, scaled: 7, precision: 3 };
    assert_eq!(format_with_commas(&d), "-0.007");
    let d = Decimal { negative: false, scaled: 999, precision: 0 };
    assert_eq!(format_with_commas(&d), "999");
    let d = Decimal { negative: false, scaled: 1000, precision: 0 };
    assert_eq!(format_with_commas(&d), "1,000");
    let d = Decimal { negative: true, scaled: 0, precision: 0 };
    assert_eq!(format_with_commas(&d), "-0");
}

#[test]
fn grouping_only_inserts_commas() {
    for n in [0u128, 5, 42, 999, 1000, 123456, 1234567, 1000000000000] {
        let s = format_with_commas(&Decimal { negative: false, scaled: n, precision: 0 });
        assert_eq!(s.replace(',', ""), n.to_string());
        let len = n.to_string().len();
        assert_eq!(s.len(), len + (len - 1) / 3);
    }
}

#[test]
fn test_twd_financial_under_ten_thousand() {
    assert_eq!(twd(0.0), "0元");
    assert_eq!(twd(150.0), "150元");
    assert_eq!(twd(9999.0), "9,999元");
    assert_eq!(twd(-8500.0), "-8,500元");
}

#[test]
fn test_twd_financial_wan_level() {
    assert_eq!(twd(10000.0), "1萬");
    assert_eq!(twd(500000.0), "50萬");
    assert_eq!(twd(5000000.0), "500萬");
    assert_eq!(twd(5005000.0), "500.5萬");
    assert_eq!(twd(99999000.0), "9,999.9萬");
    assert_eq!(twd(-250000.0), "-25萬");
}

#[test]
fn test_twd_financial_yi_level() {
    assert_eq!(twd(100000000.0), "1.0億");
    assert_eq!(twd(150000000.0), "1.5億");
    assert_eq!(twd(10005000000.0), "100.1億");
    assert_eq!(twd(-1200000000.0), "-12.0億");
}

#[test]
fn test_format_twd_exactly_ten_thousand() {
    assert_eq!(twd(10_000.0), "1萬");
}

#[test]
fn test_format_twd_exactly_one_hundred_million() {
    assert_eq!(twd(100_000_000.0), "1.0億");
}

#[test]
fn test_format_twd_just_below_ten_thousand() {
    assert_eq!(twd(9_999.0), "9,999元");
}

#[test]
fn test_format_twd_negative_values() {
    assert_eq!(twd(-50_000.0), "-5萬");
    assert_eq!(twd(-100_000_000.0), "-1.0億");
}

#[test]
fn twd_form_decision_table() {
    let m = |yi, wan, whole| TwdMagnitude { at_least_yi: yi, at_least_wan: wan, wan_is_whole: whole };
    assert_eq!(twd_form(&m(true, true, true)), TwdForm { unit: TwdUnit::Yi, precision: 1 });
    assert_eq!(twd_form(&m(false, true, true)), TwdForm { unit: TwdUnit::Wan, precision: 0 });
    assert_eq!(twd_form(&m(false, true, false)), TwdForm { unit: TwdUnit::Wan, precision: 1 });
    assert_eq!(twd_form(&m(false, false, false)), TwdForm { unit: TwdUnit::Yuan, precision: 0 });
    assert_eq!(unit_size(TwdUnit::Yuan), 1);
    assert_eq!(unit_size(TwdUnit::Wan), 10_000);
    assert_eq!(unit_size(TwdUnit::Yi), 100_000_000);
    let d = Decimal { negative: false, scaled: 12345, precision: 1 };
    assert_eq!(format_twd_financial(TwdUnit::Wan, &d), "1,234.5萬");
}

#[test]
fn test_text_row_alignment() {
    let normal_row = make_clean_text_row("ROI  5%", "500萬", "500萬", false, false, false);
    assert!(normal_row.contains("style='font-family:Consolas,monospace;'"));
    assert!(normal_row.contains("ROI  5%"));
    assert!(!normal_row.contains("折現："));

    let discount_row = make_clean_text_row("ROI 10%", "1,000萬", "800萬", false, true, false);
    assert!(discount_row.contains("折現："));

    let highlight_row = make_clean_text_row("ROI 10%", "1億", "1億", true, true, false);
    assert!(highlight_row.contains("color:#F43F5E; font-weight:bold;"));

    let short_row = make_clean_text_row("ROI  5%", "350萬", "350萬", true, true, true);
    assert!(short_row.contains("color:#F43F5E; font-weight:bold;"));
    assert!(short_row.contains("350萬"));
}

#[test]
fn text_row_exact_padding() {
    assert_eq!(
        make_clean_text_row("ROI  5%", "500萬", "400萬", false, false, false),
        "<span style='font-family:Consolas,monospace;'>ROI  5%    │       500萬</span>"
    );
    assert_eq!(
        make_clean_text_row("ROI  5%", "500萬", "400萬", false, true, false),
        "<span style='font-family:Consolas,monospace;'>ROI  5%    │       500萬 │ 折現：      400萬</span>"
    );
    assert_eq!(
        make_clean_text_row("ROI  5%", "500萬", "400萬", true, true, true),
        "<span style='font-family:Consolas,monospace; color:#F43F5E; font-weight:bold;'>ROI  5%          400萬(折現)</span>"
    );
    assert_eq!(
        make_clean_text_row("a name longer than ten", "12345678901", "x", false, false, false),
        "<span style='font-family:Consolas,monospace;'>a name longer than ten │ 12345678901</span>"
    );
}

#[test]
fn test_fmt_roi_label_integer() {
    assert_eq!(roi_label(5.0, false), "ROI    5%");
    assert_eq!(roi_label(10.0, false), "ROI   10%");
    assert_eq!(roi_label(20.0, false), "ROI   20%");
}

#[test]
fn test_fmt_roi_label_float_consistency() {
    assert_eq!(roi_label(8.5, true), "ROI 8.50%");
    assert_eq!(roi_label(12.5, true), "ROI 12.5%");
    assert_eq!(roi_label(0.0, true), "ROI 0.00%");
    assert_eq!(roi_label(-5.5, true), "ROI -5.5%");
}

#[test]
fn roi_label_short_text_and_wide_number() {
    assert_eq!(fmt_roi_label("7", 7, true), "ROI 7%");
    assert_eq!(fmt_roi_label("", 12345, false), "ROI 12345%");
}
