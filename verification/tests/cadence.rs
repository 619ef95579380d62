use egui_charts::cadence::{bar_duration_ms, median_forward_gap, nearest_duration};

const MS: i128 = 1_000_000;

#[test]
fn bar_duration_is_median_positive_gap() {
    // Gaps: 60s, 60s, 0 (ignored), 120s, 60s -> sorted [60, 60, 60, 120] -> index 2 -> 60s.
    let times: Vec<i128> = vec![0, 60_000 * MS, 120_000 * MS, 120_000 * MS, 240_000 * MS, 300_000 * MS];
    assert_eq!(bar_duration_ms(&times), 60_000);
}

#[test]
fn bar_duration_uses_absolute_gaps_and_upper_median() {
    // Gaps by absolute value: 1000, 3000 -> sorted [1000, 3000] -> index 1.
    let times: Vec<i128> = vec![5_000 * MS, 4_000 * MS, 7_000 * MS];
    assert_eq!(bar_duration_ms(&times), 3_000);
}

#[test]
fn bar_duration_defaults_to_one_minute() {
    assert_eq!(bar_duration_ms(&Vec::new()), 60_000);
    assert_eq!(bar_duration_ms(&vec![42]), 60_000);
    assert_eq!(bar_duration_ms(&vec![42, 42, 42]), 60_000);
}

#[test]
fn gaps_are_whole_milliseconds_truncated() {
    // Instants 0.6 ms and 1.2 ms apart from the first: the gap between the
    // first two is 0.6 ms, i.e. 0 whole ms, and is ignored; the next is 0.6 ms too.
    let times: Vec<i128> = vec![0, 600_000, 1_200_000];
    assert_eq!(bar_duration_ms(&times), 60_000);
    assert_eq!(median_forward_gap(&times), None);
    // 1.9 ms truncates to 1 ms, backwards as well as forwards.
    let times: Vec<i128> = vec![0, 1_900_000, 0];
    assert_eq!(bar_duration_ms(&times), 1);
    assert_eq!(median_forward_gap(&times), Some(1));
    // Sub-millisecond parts of both ends are dropped only from the difference.
    let times: Vec<i128> = vec![999_999, 2_000_001];
    assert_eq!(bar_duration_ms(&times), 1);
}

#[test]
fn forward_gap_ignores_backward_steps() {
    // Forward gaps: -1000 (dropped), 3000, 5000 -> sorted [3000, 5000] -> index 1.
    let times: Vec<i128> = vec![5_000 * MS, 4_000 * MS, 7_000 * MS, 12_000 * MS];
    assert_eq!(median_forward_gap(&times), Some(5_000));
    assert_eq!(median_forward_gap(&vec![9 * MS, 3 * MS]), None);
    assert_eq!(median_forward_gap(&Vec::new()), None);
}

#[test]
fn nearest_duration_prefers_first_on_tie() {
    let d: Vec<i64> = vec![100, 300, 500];
    assert_eq!(nearest_duration(&d, 200), Some(0));
    assert_eq!(nearest_duration(&d, 260), Some(1));
    assert_eq!(nearest_duration(&d, 10_000), Some(2));
    assert_eq!(nearest_duration(&Vec::new(), 10), None);
}
