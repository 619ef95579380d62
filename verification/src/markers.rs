//! Marker shapes and marker positions for chart annotations.

use vstd::prelude::*;

verus! {

/// Marker shape
#[derive(Debug, Clone, Copy, PartialEq, Eq)]
pub enum MarkerShape {
    /// Circle marker - filled circle
    Circle,
    /// Square marker - filled square
    Square,
    /// Arrow up marker - points upward
    ArrowUp,
    /// Arrow down marker - points downward
    ArrowDown,
    /// Triangle up marker - points upward (hollow)
    TriangleUp,
    /// Triangle down marker - points downward (hollow)
    TriangleDown,
    /// Diamond marker - filled diamond shape
    Diamond,
    /// Star marker
    Star,
    /// Cross marker (X shape)
    Cross,
    /// Flag marker - for marking important events
    Flag,
    /// Text badge: a rounded rectangle with a background color and centered text,
    /// used to mark buy/sell fills above a bar.
    TextBadge,
}

impl Default for MarkerShape {
    /// A circle.
    fn default() -> (r: Self)
        ensures
            r == MarkerShape::Circle,
    {
        MarkerShape::Circle
    }
}

/// Marker position relative to the data point
#[derive(Debug, Clone, Copy, PartialEq, Eq)]
pub enum MarkerPos {
    /// Above the high price
    AboveBar,
    /// Below the low price
    BelowBar,
    /// At the data point (on the candle/bar)
    InBar,
    /// At the top of the chart pane
    Top,
    /// At the bottom of the chart pane
    Bottom,
    /// At the left edge of the chart
    Left,
    /// At the right edge of the chart
    Right,
    /// Absolute pixel position (up arrow)
    AbsoluteUp,
    /// Absolute pixel position (down arrow)
    AbsoluteDown,
    /// Absolute pixel position (centered)
    Absolute,
}

impl Default for MarkerPos {
    /// Above the bar.
    fn default() -> (r: Self)
        ensures
            r == MarkerPos::AboveBar,
    {
        MarkerPos::AboveBar
    }
}

} // verus!
