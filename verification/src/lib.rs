//! Verified core of an interactive OHLCV chart widget: order-line overlays,
//! marker placement enums, time-axis bookkeeping, crosshair index resolution,
//! element selection, background fills and the chart's integer/boolean view
//! state.

pub mod color;
pub mod order_lines;
pub mod markers;
pub mod cadence;
pub mod labels;
pub mod crosshair;
pub mod widget;
pub mod tooltip;
pub mod selection;
pub mod background;
