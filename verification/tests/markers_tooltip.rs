use egui_charts::markers::{MarkerPos, MarkerShape};
use egui_charts::tooltip::{tooltip_rows, TooltipRow};

#[test]
fn marker_defaults() {
    assert_eq!(MarkerShape::default(), MarkerShape::Circle);
    assert_eq!(MarkerPos::default(), MarkerPos::AboveBar);
}

#[test]
fn tooltip_rows_follow_flags() {
    assert_eq!(
        tooltip_rows(true, true, true, true),
        vec![
            TooltipRow::Time,
            TooltipRow::Open,
            TooltipRow::High,
            TooltipRow::Low,
            TooltipRow::Close,
            TooltipRow::Volume,
            TooltipRow::Change
        ]
    );
    assert_eq!(tooltip_rows(false, false, true, true), vec![TooltipRow::Volume, TooltipRow::Change]);
    assert!(tooltip_rows(false, false, false, false).is_empty());
}
