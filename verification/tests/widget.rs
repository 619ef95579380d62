use egui_charts::widget::{
    bar_x_at_ts, resolve_click, resolve_pane_clicks, resolve_right_click, session_timeframe_preset,
    watermark_text, ChartType, ChartViewState, DataUpdate, PaneEvent, RightClickHit, SelectionChange,
};

fn update(prev_len: usize, new_len: usize, old_tail: Option<i128>, new_tail: Option<i128>) -> DataUpdate {
    DataUpdate {
        prev_len,
        new_len,
        old_tail_ns: old_tail,
        new_tail_ns: new_tail,
        tail_close_changed: false,
        near_live: true,
        shift_visible_range_on_new_bar: true,
        allow_shift_visible_range_on_whitespace_replacement: false,
    }
}

#[test]
fn take_indicator_remove_drains_once() {
    let mut chart: ChartViewState<()> = ChartViewState::new();
    // No request pending after construction.
    assert_eq!(chart.take_indicator_remove(), None);

    // A pane legend "x" click records the indicator's registry index.
    chart.record_indicator_remove(Some(2));
    assert_eq!(chart.take_indicator_remove(), Some(2));
    // The request is consumed exactly once.
    assert_eq!(chart.take_indicator_remove(), None);
}

#[test]
fn frame_without_remove_keeps_pending_request() {
    let mut chart: ChartViewState<()> = ChartViewState::new();
    chart.record_indicator_remove(Some(1));
    chart.record_indicator_remove(None);
    assert_eq!(chart.take_indicator_remove(), Some(1));
}

#[test]
fn right_click_drains_once_and_expires_each_frame() {
    let mut chart: ChartViewState<&str> = ChartViewState::new();
    chart.record_right_click("drawing");
    chart.record_right_click("background");
    assert_eq!(chart.take_right_click(), Some("background"));
    assert_eq!(chart.take_right_click(), None);

    chart.record_right_click("series");
    chart.zoom_just_applied = true;
    chart.begin_frame();
    assert_eq!(chart.take_right_click(), None);
    assert!(!chart.zoom_was_applied());
}

#[test]
fn visible_bars_builder_shows_latest_bars() {
    let chart: ChartViewState<()> = ChartViewState::new().visible_bars(500, 120);
    assert_eq!(chart.get_start_idx(), 380);
    assert_eq!(chart.desired_visible_bars, Some(120));
    let short: ChartViewState<()> = ChartViewState::new().visible_bars(50, 120);
    assert_eq!(short.get_start_idx(), 0);
    let explicit: ChartViewState<()> = ChartViewState::new().visible_bars(500, 120).start_idx(7);
    assert_eq!(explicit.get_start_idx(), 7);
}

#[test]
fn visible_bars_fallback_before_first_frame() {
    let mut chart: ChartViewState<()> = ChartViewState::new();
    assert_eq!(chart.get_visible_bars(), 100);
    chart.last_visible_bars = 64;
    assert_eq!(chart.get_visible_bars(), 64);
}

#[test]
fn set_visible_bars_only_when_different() {
    let mut chart: ChartViewState<()> = ChartViewState::new();
    chart.set_visible_bars(80);
    assert_eq!(chart.desired_visible_bars, Some(80));
    assert!(chart.apply_visible_bars_once);

    let mut shown: ChartViewState<()> = ChartViewState::new();
    shown.last_visible_bars = 80;
    shown.set_visible_bars(80);
    assert_eq!(shown.desired_visible_bars, None);
    assert!(!shown.apply_visible_bars_once);
    shown.set_visible_bars(90);
    assert_eq!(shown.desired_visible_bars, Some(90));
}

#[test]
fn set_start_idx_records_pending_once() {
    let mut chart: ChartViewState<()> = ChartViewState::new();
    chart.set_start_idx(0);
    assert_eq!(chart.pending_start_idx, None);
    chart.set_start_idx(25);
    assert_eq!(chart.get_start_idx(), 25);
    assert_eq!(chart.pending_start_idx, Some(25));
    chart.pending_start_idx = None;
    chart.set_start_idx(25);
    assert_eq!(chart.pending_start_idx, None);
}

#[test]
fn tracking_mode_toggles() {
    let mut chart: ChartViewState<()> = ChartViewState::new();
    assert!(!chart.is_tracking_mode_active());
    assert!(chart.toggle_tracking_mode());
    assert!(chart.is_tracking_mode_active());
    assert!(!chart.toggle_tracking_mode());
    assert!(!chart.is_tracking_mode_active());
    chart.enable_tracking_mode();
    assert!(chart.is_tracking_mode_active());
    chart.disable_tracking_mode();
    assert!(!chart.is_tracking_mode_active());
    chart.set_zoom_mode(true);
    assert!(chart.zoom_mode_active);
}

#[test]
fn update_data_follows_appended_bars_near_live_edge() {
    let mut chart: ChartViewState<()> = ChartViewState::new();
    chart.pending_start_idx = Some(3);
    assert!(chart.update_data(&update(10, 11, Some(1_000), Some(2_000))));
    assert_eq!(chart.pending_start_idx, None);
}

#[test]
fn update_data_ignores_prepended_history() {
    let mut chart: ChartViewState<()> = ChartViewState::new();
    chart.pending_start_idx = Some(3);
    // More bars, but the last bar did not move forward.
    assert!(!chart.update_data(&update(10, 400, Some(2_000), Some(2_000))));
    assert_eq!(chart.pending_start_idx, Some(3));
}

#[test]
fn update_data_respects_user_scroll_and_options() {
    let mut chart: ChartViewState<()> = ChartViewState::new();
    let mut far = update(10, 11, Some(1_000), Some(2_000));
    far.near_live = false;
    assert!(!chart.update_data(&far));
    let mut off = update(10, 11, Some(1_000), Some(2_000));
    off.shift_visible_range_on_new_bar = false;
    assert!(!chart.update_data(&off));
    // Empty before: nothing to compare, so nothing appended.
    assert!(!chart.update_data(&update(0, 5, None, Some(2_000))));
}

#[test]
fn update_data_whitespace_replacement_needs_option() {
    let mut chart: ChartViewState<()> = ChartViewState::new();
    let mut replaced = update(10, 10, Some(2_000), Some(2_000));
    replaced.tail_close_changed = true;
    assert!(!chart.update_data(&replaced));
    replaced.allow_shift_visible_range_on_whitespace_replacement = true;
    assert!(chart.update_data(&replaced));
}

#[test]
fn bar_x_lookup_is_exact() {
    let bars: Vec<(i64, f32)> = vec![(1_000, 10.5), (2_000, 20.5), (5_000, 30.5), (9_000, 40.5)];
    assert_eq!(bar_x_at_ts(&bars, 1_000), Some(10.5));
    assert_eq!(bar_x_at_ts(&bars, 5_000), Some(30.5));
    assert_eq!(bar_x_at_ts(&bars, 9_000), Some(40.5));
    // A time inside a gap between bars is not interpolated.
    assert_eq!(bar_x_at_ts(&bars, 3_000), None);
    assert_eq!(bar_x_at_ts(&bars, 0), None);
    assert_eq!(bar_x_at_ts(&bars, 10_000), None);
    let empty: Vec<(i64, f32)> = Vec::new();
    assert_eq!(bar_x_at_ts(&empty, 0), None);
}

#[test]
fn watermark_text_fallbacks() {
    assert_eq!(watermark_text(Some("WM"), "BTCUSD"), "WM");
    assert_eq!(watermark_text(None, "BTCUSD"), "BTCUSD");
    assert_eq!(watermark_text(None, ""), "SYMBOL");
}

#[test]
fn session_preset_snaps_to_nearest_duration() {
    let presets: Vec<i64> = vec![60_000, 300_000, 3_600_000, 86_400_000];
    // Five-minute bars with one overnight jump: the median ignores the jump.
    let times: Vec<i128> = vec![0, 300_000, 600_000, 900_000, 50_000_000, 50_300_000]
        .into_iter()
        .map(|ms: i128| ms * 1_000_000)
        .collect();
    assert_eq!(session_timeframe_preset(&times, &presets), Some(1));
    // Hourly-ish bars.
    let hourly: Vec<i128> = vec![0, 3_500_000_000_000, 7_100_000_000_000];
    assert_eq!(session_timeframe_preset(&hourly, &presets), Some(2));
    // Fewer than two bars: cannot measure.
    assert_eq!(session_timeframe_preset(&vec![5], &presets), None);
    // No time advance between bars.
    assert_eq!(session_timeframe_preset(&vec![5, 5, 5], &presets), None);
    // No presets.
    assert_eq!(session_timeframe_preset(&times, &Vec::new()), None);
}

#[test]
fn left_click_selects_or_clears() {
    assert_eq!(resolve_click(Some(("series", 4))), SelectionChange::Select("series", Some(4)));
    assert_eq!(resolve_click::<&str>(None), SelectionChange::Deselect);
}

#[test]
fn right_click_priority() {
    assert_eq!(
        resolve_right_click(Some(7), Some(("series", 4))),
        (RightClickHit::Drawing(7), SelectionChange::Deselect)
    );
    assert_eq!(
        resolve_right_click(None, Some(("overlay", 2))),
        (RightClickHit::Element("overlay", 2), SelectionChange::Select("overlay", Some(2)))
    );
    assert_eq!(
        resolve_right_click::<&str>(None, None),
        (RightClickHit::Background, SelectionChange::Deselect)
    );
}

#[test]
fn pane_clicks_last_wins_and_close_keeps_selection() {
    let events = vec![
        PaneEvent { index: 0, close_clicked: false, click: Some(Some("rsi")) },
        PaneEvent { index: 1, close_clicked: true, click: Some(None) },
        PaneEvent { index: 2, close_clicked: false, click: None },
    ];
    let r = resolve_pane_clicks(events);
    assert_eq!(r.selection, Some(SelectionChange::Select("rsi", None)));
    assert_eq!(r.remove, Some(1));

    let later = vec![
        PaneEvent { index: 0, close_clicked: false, click: Some(Some("rsi")) },
        PaneEvent { index: 3, close_clicked: false, click: Some(None) },
    ];
    let r = resolve_pane_clicks(later);
    assert_eq!(r.selection, Some(SelectionChange::Deselect));
    assert_eq!(r.remove, None);

    let quiet: Vec<PaneEvent<&str>> = vec![PaneEvent { index: 0, close_clicked: false, click: None }];
    let r = resolve_pane_clicks(quiet);
    assert_eq!(r.selection, None);
    assert_eq!(r.remove, None);
}

#[test]
fn new_chart_defaults() {
    let chart: ChartViewState<()> = ChartViewState::new();
    assert_eq!(chart.chart_type(), ChartType::Candles);
    assert!(chart.is_validation_enabled());
    assert!(!chart.is_tracking_mode_active());
    assert_eq!(chart.get_start_idx(), 0);
    assert_eq!(chart.get_visible_bars(), 100);
    assert!(!chart.zoom_was_applied());
}

#[test]
fn chart_type_and_validation_switches() {
    let mut chart: ChartViewState<()> = ChartViewState::new();
    chart.set_chart_type(ChartType::Renko);
    assert_eq!(chart.chart_type(), ChartType::Renko);
    chart.set_chart_type(ChartType::Line);
    assert_eq!(chart.chart_type(), ChartType::Line);
    chart.disable_validation();
    assert!(!chart.is_validation_enabled());
    chart.enable_validation();
    assert!(chart.is_validation_enabled());
    chart.enable_validation();
    assert!(chart.is_validation_enabled());
}
