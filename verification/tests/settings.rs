use financial_simulator::settings::{
    asset_input_label, clamp, future_amount_hint, future_input_label, inflation_input_label,
    inflation_option_label, invested_years_hint, simulated_years_hint, str_equal, years_to_target_hint,
    AgeSettings, FutureMode,
};
use financial_simulator::summary::{
    asset_note, end_text, future_desc, scenario, summary_from_scratch, summary_lump_sum, summary_with_history,
    Scenario,
};

#[test]
fn restored_ages_are_ordered() {
    let a = AgeSettings::from_stored(25, 38, 65);
    assert_eq!(a, AgeSettings { start_age: 25, current_age: 38, target_age: 65 });
    let a = AgeSettings::from_stored(40, 30, 20);
    assert_eq!(a, AgeSettings { start_age: 40, current_age: 40, target_age: 41 });
    let a = AgeSettings::from_stored(10, 20, 900);
    assert_eq!(a.target_age, 150);
}

#[test]
fn years_of_a_plan() {
    let a = AgeSettings { start_age: 25, current_age: 38, target_age: 65 };
    assert_eq!((a.hist_years(), a.total_years(), a.future_years()), (13, 40, 27));
    assert!(a.is_hist_years_active());
    let b = AgeSettings { start_age: 40, current_age: 30, target_age: 65 };
    assert_eq!((b.hist_years(), b.total_years(), b.future_years()), (0, 1, 1));
    assert!(!b.is_hist_years_active());
    let c = AgeSettings { start_age: 25, current_age: 38, target_age: 30 };
    assert_eq!((c.hist_years(), c.total_years(), c.future_years()), (13, 13, 0));
    let d = AgeSettings { start_age: 30, current_age: 30, target_age: 40 };
    assert_eq!((d.hist_years(), d.total_years()), (0, 10));
    assert!(a.can_infer_roi(false));
    assert!(!a.can_infer_roi(true));
    assert!(!d.can_infer_roi(false));
}

#[test]
fn committing_inputs() {
    let mut a = AgeSettings { start_age: 200, current_age: 30, target_age: 20 };
    a.commit_start_age();
    assert_eq!(a, AgeSettings { start_age: 150, current_age: 150, target_age: 151 });
    let mut b = AgeSettings { start_age: 40, current_age: 30, target_age: 35 };
    b.commit_current_age();
    assert_eq!(b, AgeSettings { start_age: 40, current_age: 40, target_age: 41 });
    let mut c = AgeSettings { start_age: 40, current_age: 45, target_age: 300 };
    c.commit_target_age();
    assert_eq!(c.target_age, 150);
    let mut d = AgeSettings { start_age: 40, current_age: 45, target_age: 10 };
    d.commit_target_age();
    assert_eq!(d.target_age, 46);
    assert_eq!(clamp(7, 3, 5), 5);
    assert_eq!(clamp(1, 3, 5), 3);
    assert_eq!(clamp(4, 3, 5), 4);
}

#[test]
fn future_mode_storage() {
    for m in [FutureMode::Stop, FutureMode::Invest, FutureMode::Withdraw] {
        assert_eq!(FutureMode::from_stored(m.stored_name()), m);
    }
    assert_eq!(FutureMode::Invest.stored_name(), "invest");
    assert_eq!(FutureMode::from_stored("withdraw"), FutureMode::Withdraw);
    assert_eq!(FutureMode::from_stored("Invest"), FutureMode::Stop);
    assert_eq!(FutureMode::from_stored(""), FutureMode::Stop);
    assert!(str_equal("萬元", "萬元"));
    assert!(!str_equal("萬元", "萬"));
}

#[test]
fn input_hints() {
    assert_eq!(invested_years_hint(0), "剛要開始投資");
    assert_eq!(invested_years_hint(13), "已投資 13 年");
    assert_eq!(years_to_target_hint(27), "距目標還有 27 年");
    assert_eq!(simulated_years_hint(40), "共模擬 40 年");
    assert_eq!(inflation_option_label(0), "🚫 不考慮通膨 (0%)");
    assert_eq!(inflation_option_label(3), "📉 通膨率：3%/年");
    assert_eq!(future_amount_hint(FutureMode::Invest, "2萬"), "= 未來每月名目投入 2萬");
    assert_eq!(future_amount_hint(FutureMode::Withdraw, "2萬"), "= 未來每月實質提領 2萬");
    assert_eq!(future_amount_hint(FutureMode::Stop, "2萬"), "");
    assert_eq!(asset_input_label(true), "🎯 五：現有資產（萬元）");
    assert_eq!(asset_input_label(false), "💰 四：起始資金（萬元）");
    assert_eq!(future_input_label(false), "🔵 五：未來計畫金額（千元）");
    assert_eq!(inflation_input_label(true), "📉 七：未來通膨率");
}

#[test]
fn summary_parts() {
    assert_eq!(future_desc(FutureMode::Stop, "1萬"), "未來不再投入");
    assert_eq!(future_desc(FutureMode::Invest, "1萬"), "未來每月投入 1萬");
    assert_eq!(future_desc(FutureMode::Withdraw, "1萬"), "未來每月提領 1萬");
    assert_eq!(
        end_text(true, Some(27), 30, 2, "-5萬", "-4萬"),
        "🚨 警告：依此提領速度與模擬回報，資產預計將在 <strong style='color:#F43F5E;'>32 歲 3 個月</strong> 時提早耗盡歸零！"
    );
    assert_eq!(
        end_text(true, Some(24), 30, 2, "-5萬", "-4萬"),
        "🚨 警告：依此提領速度與模擬回報，資產預計將在 <strong style='color:#F43F5E;'>32 歲整</strong> 時提早耗盡歸零！"
    );
    assert_eq!(end_text(true, None, 30, 2, "0元", "0元"), "⚠️ 資產恐將耗盡（名目終值 0元）");
    assert_eq!(end_text(false, None, 30, 0, "500萬", "400萬"), "資產累積名目約 <strong>500萬</strong>");
    assert_eq!(
        end_text(false, None, 30, 2, "500萬", "400萬"),
        "資產累積名目約 <strong>500萬</strong>，實質購買力約 <strong>400萬</strong>"
    );
    assert_eq!(asset_note(None, Some("8.00"), false), "");
    assert_eq!(asset_note(Some("500萬"), None, false), "，現有資產 <strong>500萬</strong>");
    assert_eq!(
        asset_note(Some("500萬"), Some("-3.20"), true),
        "，現有資產 <strong>500萬</strong> (≈隱含年化 <span style='color: #F43F5E; font-weight: bold;'>-3.20%</span>)"
    );
}

#[test]
fn summary_sentences() {
    assert_eq!(scenario(0, true), Scenario::FromScratch);
    assert_eq!(scenario(0, false), Scenario::LumpSum);
    assert_eq!(scenario(5, true), Scenario::WithHistory);
    assert_eq!(
        summary_from_scratch(0, 65, "未來不再投入", "7.00", "E"),
        "👶 幫新生兒從 0 歲白手起家 — 未來不再投入，以系統基準預估年化回報 <strong>7.00%</strong> 在 <strong>65</strong> 歲時，<span>E</span>"
    );
    assert_eq!(
        summary_from_scratch(30, 65, "F", "7.00", "E"),
        "📊 規劃從 30 歲出發 — F，以系統基準預估年化回報 <strong>7.00%</strong> 在 <strong>65</strong> 歲時，<span>E</span>"
    );
    assert_eq!(
        summary_lump_sum(30, 65, "100萬", "F", "7.00", "E"),
        "💰 規劃從 30 歲配置 — <span>起始本金 <strong>100萬</strong></span>，F，並以基準預估年化回報 <strong>7.00%</strong> 在 <strong>65</strong> 歲時，<span>E</span>"
    );
    assert_eq!(
        summary_with_history(25, 65, 13, "3萬", "468萬", "N", true, "F", "8.00", "E"),
        "自 25 歲起每月投資 3萬 共投入 <strong>468萬</strong>，至今已投 13 年<span>N</span>。延續此回報率並調整戰略為：F，期望在 <strong>65</strong> 歲時，<span>E</span>"
    );
    assert_eq!(
        summary_with_history(25, 65, 13, "3萬", "468萬", "", false, "F", "7.00", "E"),
        "自 25 歲起每月投資 3萬 共投入 <strong>468萬</strong>，至今已投 13 年<span></span>。目前無隱含報酬，調整戰略為：F，並以基準預估年化回報 7.00% 期望在 <strong>65</strong> 歲時，<span>E</span>"
    );
}
