use egui_charts::labels::{max_time_marks, price_label_tier, time_bracket, time_label_tier, time_mark_bars, LabelTier};

#[test]
fn price_tiers_by_weight() {
    assert_eq!(price_label_tier(100), LabelTier::Major);
    assert_eq!(price_label_tier(80), LabelTier::Major);
    assert_eq!(price_label_tier(79), LabelTier::Medium);
    assert_eq!(price_label_tier(60), LabelTier::Medium);
    assert_eq!(price_label_tier(59), LabelTier::Minor);
    assert_eq!(price_label_tier(0), LabelTier::Minor);
}

#[test]
fn time_tiers_by_weight() {
    assert_eq!(time_label_tier(50, 40, 30), LabelTier::Major);
    assert_eq!(time_label_tier(35, 40, 30), LabelTier::Medium);
    assert_eq!(time_label_tier(10, 40, 30), LabelTier::Minor);
}

const MS: i128 = 1_000_000;

#[test]
fn mark_bars_extend_both_sides() {
    let visible: Vec<i128> = vec![10_000 * MS, 11_000 * MS, 12_000 * MS];
    let m = time_mark_bars(&visible, 20, 1_000, 1).unwrap();
    // 10 bars to the left, 3 visible, 1 + 2 to the right.
    assert_eq!(m.bars.len(), 16);
    assert_eq!(m.bars[0], (0, 10));
    assert_eq!(m.bars[9], (9_000 * MS, 19));
    assert_eq!(m.bars[10], (10_000 * MS, 20));
    assert_eq!(m.bars[12], (12_000 * MS, 22));
    assert_eq!(m.bars[13], (13_000 * MS, 23));
    assert_eq!(m.bars[15], (15_000 * MS, 25));
    assert_eq!(m.start_ns, 0);
    assert_eq!(m.end_ns, 15_000 * MS);
    for w in m.bars.windows(2) {
        assert_eq!(w[1].1, w[0].1 + 1);
        assert!(w[0].0 <= w[1].0);
    }
}

#[test]
fn mark_bars_stop_at_index_zero() {
    let visible: Vec<i128> = vec![5_000 * MS, 6_000 * MS];
    let m = time_mark_bars(&visible, 3, 1_000, 0).unwrap();
    assert_eq!(m.bars.len(), 3 + 2 + 2);
    assert_eq!(m.bars[0], (2_000 * MS, 0));
    assert_eq!(m.bars[3], (5_000 * MS, 3));
    assert_eq!(m.bars[6], (8_000 * MS, 6));
}

#[test]
fn mark_bars_step_at_least_one_ms() {
    let visible: Vec<i128> = vec![100];
    let m = time_mark_bars(&visible, 0, 0, 0).unwrap();
    assert_eq!(m.bars, vec![(100, 0), (100 + MS, 1), (100 + 2 * MS, 2)]);
}

#[test]
fn mark_bars_empty_visible_data() {
    assert!(time_mark_bars(&Vec::new(), 5, 1_000, 0).is_none());
}

#[test]
fn bracket_locates_time() {
    let bars: Vec<(i128, usize)> = vec![(0, 10), (1_000, 11), (2_000, 12), (5_000, 13)];
    assert_eq!(time_bracket(&bars, -5), Some((0, 0)));
    assert_eq!(time_bracket(&bars, 0), Some((0, 0)));
    assert_eq!(time_bracket(&bars, 500), Some((0, 1)));
    assert_eq!(time_bracket(&bars, 1_000), Some((1, 2)));
    assert_eq!(time_bracket(&bars, 4_999), Some((2, 3)));
    assert_eq!(time_bracket(&bars, 5_000), Some((3, 3)));
    assert_eq!(time_bracket(&bars, 9_000), Some((3, 3)));
    assert_eq!(time_bracket(&Vec::new(), 9_000), None);
}

#[test]
fn time_mark_count_is_clamped() {
    assert_eq!(max_time_marks(0), 6);
    assert_eq!(max_time_marks(4), 6);
    assert_eq!(max_time_marks(5), 7);
    assert_eq!(max_time_marks(22), 24);
    assert_eq!(max_time_marks(100), 24);
}
