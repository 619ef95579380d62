//! How the chart background is filled.

use vstd::prelude::*;
use crate::color::ChartColor;

verus! {

/// Background style of the chart area.
#[derive(Debug, Clone, Copy, PartialEq, Eq, Structural)]
pub enum BackgroundStyle {
    /// One color, the configured background color.
    Solid,
    /// A gradient from the top edge to the bottom edge.
    VerticalGradient {
        /// Color along the top edge.
        top_color: ChartColor,
        /// Color along the bottom edge.
        bottom_color: ChartColor,
    },
    /// A gradient from the left edge to the right edge.
    HorizontalGradient {
        /// Color along the left edge.
        left_color: ChartColor,
        /// Color along the right edge.
        right_color: ChartColor,
    },
}

/// What is painted over the chart area.
#[derive(Debug, Clone, Copy, PartialEq, Eq, Structural)]
pub enum BackgroundFill {
    /// A filled rectangle of one color.
    Solid(ChartColor),
    /// A quad with a color at each corner, blended across the area.
    Corners {
        /// Left-top corner.
        left_top: ChartColor,
        /// Right-top corner.
        right_top: ChartColor,
        /// Right-bottom corner.
        right_bottom: ChartColor,
        /// Left-bottom corner.
        left_bottom: ChartColor,
    },
}

/// The fill of the chart area: nothing when the chart sits in a container
/// that paints its own background; otherwise the background color for a
/// solid style, and for a gradient the two edge colors on the corners of
/// their edges.
pub fn background_fill(skip_background: bool, style: BackgroundStyle, background_color: ChartColor) -> (r:
    Option<BackgroundFill>)
    ensures
        skip_background ==> r is None,
        !skip_background ==> r == Some(
            match style {
                BackgroundStyle::Solid => BackgroundFill::Solid(background_color),
                BackgroundStyle::VerticalGradient { top_color, bottom_color } => BackgroundFill::Corners {
                    left_top: top_color,
                    right_top: top_color,
                    right_bottom: bottom_color,
                    left_bottom: bottom_color,
                },
                BackgroundStyle::HorizontalGradient { left_color, right_color } => BackgroundFill::Corners {
                    left_top: left_color,
                    right_top: right_color,
                    right_bottom: right_color,
                    left_bottom: left_color,
                },
            },
        ),
{
    if skip_background {
        return None;
    }
    match style {
        BackgroundStyle::Solid => Some(BackgroundFill::Solid(background_color)),
        BackgroundStyle::VerticalGradient { top_color, bottom_color } => Some(
            BackgroundFill::Corners {
                left_top: top_color,
                right_top: top_color,
                right_bottom: bottom_color,
                left_bottom: bottom_color,
            },
        ),
        BackgroundStyle::HorizontalGradient { left_color, right_color } => Some(
            BackgroundFill::Corners {
                left_top: left_color,
                right_top: right_color,
                right_bottom: right_color,
                left_bottom: left_color,
            },
        ),
    }
}

} // verus!
