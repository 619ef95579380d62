use egui_charts::crosshair::{time_label_format, visible_local_index};

#[test]
fn local_index_inside_visible_range() {
    assert_eq!(visible_local_index(12, 10, 5), Some(2));
    assert_eq!(visible_local_index(10, 10, 5), Some(0));
    assert_eq!(visible_local_index(14, 10, 5), Some(4));
    assert_eq!(visible_local_index(15, 10, 5), None);
    assert_eq!(visible_local_index(9, 10, 5), None);
    assert_eq!(visible_local_index(-1, 0, 5), None);
    assert_eq!(visible_local_index(0, 0, 0), None);
}

const MS: i128 = 1_000_000;

#[test]
fn crosshair_time_formats() {
    assert_eq!(time_label_format(&vec![0]), "%H:%M:%S");
    assert_eq!(time_label_format(&vec![0, 500 * MS]), "%H:%M:%S%.3f");
    assert_eq!(time_label_format(&vec![0, 1_000 * MS]), "%H:%M:%S");
    assert_eq!(time_label_format(&vec![0, 60_000 * MS]), "%H:%M");
    assert_eq!(time_label_format(&vec![0, 3_600_000 * MS]), "%b %d %H:%M");
    assert_eq!(time_label_format(&vec![0, 86_400_000 * MS]), "%b %d, %Y");
    // Spacing is taken by absolute value.
    assert_eq!(time_label_format(&vec![60_000 * MS, 0]), "%H:%M");
    // Whole seconds, truncated: 59.999999999 s is still "seconds".
    assert_eq!(time_label_format(&vec![0, 59_999_999_999]), "%H:%M:%S");
    assert_eq!(time_label_format(&vec![0, 999_999_999]), "%H:%M:%S%.3f");
}
