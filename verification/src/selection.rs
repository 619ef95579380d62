//! Selecting chart elements: which element a click on the main chart picks
//! when several lie under the pointer, and which selection handles the main
//! chart draws for the selected element.

use vstd::prelude::*;

verus! {

/// A price series of the main chart.
#[derive(Debug, Clone, Copy, PartialEq, Eq, Structural)]
pub enum SeriesId {
    /// The main price series (candles, bars or line).
    Main,
    /// The volume series.
    Volume,
}

/// A selectable chart element.
#[derive(Debug, Clone, Copy, PartialEq, Eq, Structural)]
pub enum ChartElementId {
    /// An overlay indicator drawn on the main chart, by registry index.
    OverlayIndicator(usize),
    /// A price or volume series.
    Series(SeriesId),
    /// An indicator drawn in a pane of its own, by registry index.
    PaneIndicator(usize),
}

/// Position `i` holds the first overlay hit: some bar was hit there and at
/// no earlier position.
pub open spec fn first_overlay_hit(overlay_hits: Seq<Option<usize>>, i: int) -> bool {
    &&& 0 <= i < overlay_hits.len()
    &&& overlay_hits[i] is Some
    &&& forall|j: int| 0 <= j < i ==> (#[trigger] overlay_hits[j]) is None
}

/// No overlay indicator was hit.
pub open spec fn no_overlay_hit(overlay_hits: Seq<Option<usize>>) -> bool {
    forall|j: int| 0 <= j < overlay_hits.len() ==> (#[trigger] overlay_hits[j]) is None
}

/// Resolves a click on the main chart by stacking order, given what each
/// layer's hit test found (the bar index hit, if any): overlay indicators,
/// in registry order, above the main series, above the volume series.
/// `overlay_hits[i]` is the hit on indicator `i` (never one for a hidden or
/// pane indicator); `volume_hit` is `None` when no volume pane is drawn.
/// Nothing is hit when there are no bars.
pub fn main_chart_hit(
    bar_count: usize,
    overlay_hits: &Vec<Option<usize>>,
    series_hit: Option<usize>,
    volume_hit: Option<usize>,
) -> (r: Option<(ChartElementId, usize)>)
    ensures
        bar_count == 0 ==> r is None,
        forall|i: int|
            bar_count > 0 && first_overlay_hit(overlay_hits@, i) ==> r == Some(
                (ChartElementId::OverlayIndicator(i as usize), overlay_hits@[i].unwrap()),
            ),
        bar_count > 0 && no_overlay_hit(overlay_hits@) ==> r == (match series_hit {
            Some(bar) => Some((ChartElementId::Series(SeriesId::Main), bar)),
            None => match volume_hit {
                Some(bar) => Some((ChartElementId::Series(SeriesId::Volume), bar)),
                None => None,
            },
        }),
{
    if bar_count == 0 {
        return None;
    }
    let mut i: usize = 0;
    while i < overlay_hits.len()
        invariant
            bar_count > 0,
            0 <= i <= overlay_hits@.len(),
            forall|j: int| 0 <= j < i ==> (#[trigger] overlay_hits@[j]) is None,
        decreases overlay_hits@.len() - i,
    {
        match overlay_hits[i] {
            Some(bar) => {
                proof {
                    assert forall|k: int| first_overlay_hit(overlay_hits@, k) implies k == i by {
                        if k < i {
                            assert(overlay_hits@[k] is None);
                        } else if k > i {
                            assert(overlay_hits@[i as int] is None);
                        }
                    }
                }
                return Some((ChartElementId::OverlayIndicator(i), bar));
            },
            None => {},
        }
        i = i + 1;
    }
    proof {
        assert forall|k: int| !first_overlay_hit(overlay_hits@, k) by {
            if 0 <= k < overlay_hits@.len() {
                assert(overlay_hits@[k] is None);
            }
        }
    }
    match series_hit {
        Some(bar) => Some((ChartElementId::Series(SeriesId::Main), bar)),
        None => match volume_hit {
            Some(bar) => Some((ChartElementId::Series(SeriesId::Volume), bar)),
            None => None,
        },
    }
}

/// What the main chart knows of an indicator in the registry.
#[derive(Debug, Clone, Copy, PartialEq, Eq, Structural)]
pub struct IndicatorInfo {
    /// Whether the indicator is shown.
    pub visible: bool,
    /// Whether it is drawn over the main chart (rather than in a pane).
    pub overlay: bool,
    /// Number of lines it draws.
    pub line_cnt: usize,
}

/// Selection handles the main chart draws.
#[derive(Debug, Clone, Copy, PartialEq, Eq, Structural)]
pub enum SelectionHandles {
    /// No handles.
    Hidden,
    /// Dots along each line of an overlay indicator: lines `0..n`.
    OverlayLines(usize),
    /// Dots on the closes of the main price series.
    PriceSeries,
    /// Dots on the tops of the volume bars.
    VolumeSeries,
}

/// The handles for the selected element, if the main chart draws them.
pub open spec fn handles_for(selected: Option<ChartElementId>, indicators: Seq<IndicatorInfo>) -> SelectionHandles {
    match selected {
        None => SelectionHandles::Hidden,
        Some(ChartElementId::OverlayIndicator(idx)) => {
            if idx < indicators.len() && indicators[idx as int].visible && indicators[idx as int].overlay {
                SelectionHandles::OverlayLines(indicators[idx as int].line_cnt)
            } else {
                SelectionHandles::Hidden
            }
        },
        Some(ChartElementId::Series(SeriesId::Volume)) => SelectionHandles::VolumeSeries,
        Some(ChartElementId::Series(SeriesId::Main)) => SelectionHandles::PriceSeries,
        Some(ChartElementId::PaneIndicator(_)) => SelectionHandles::Hidden,
    }
}

/// Which selection handles the main chart draws: every line of a selected
/// overlay indicator that exists, is visible and is an overlay; the selected
/// price or volume series; nothing for a pane indicator (its pane draws its
/// own) or when nothing is selected. `indicators` is the registry in order,
/// empty when there is none.
pub fn selection_handles(selected: Option<ChartElementId>, indicators: &Vec<IndicatorInfo>) -> (r:
    SelectionHandles)
    ensures
        r == handles_for(selected, indicators@),
        selected is None ==> r == SelectionHandles::Hidden,
        selected == Some(ChartElementId::Series(SeriesId::Main)) ==> r == SelectionHandles::PriceSeries,
        selected == Some(ChartElementId::Series(SeriesId::Volume)) ==> r
            == SelectionHandles::VolumeSeries,
        selected matches Some(ChartElementId::PaneIndicator(_)) ==> r == SelectionHandles::Hidden,
        selected matches Some(ChartElementId::OverlayIndicator(i)) ==> (r is OverlayLines <==> (i
            < indicators@.len() && indicators@[i as int].visible && indicators@[i as int].overlay)),
        selected matches Some(ChartElementId::OverlayIndicator(i)) ==> (r matches SelectionHandles::OverlayLines(
            n,
        ) ==> n == indicators@[i as int].line_cnt),
        !(r is OverlayLines) || (selected matches Some(ChartElementId::OverlayIndicator(_))),
{
    match selected {
        None => SelectionHandles::Hidden,
        Some(ChartElementId::OverlayIndicator(idx)) => {
            if idx < indicators.len() {
                let info = indicators[idx];
                if info.visible && info.overlay {
                    SelectionHandles::OverlayLines(info.line_cnt)
                } else {
                    SelectionHandles::Hidden
                }
            } else {
                SelectionHandles::Hidden
            }
        },
        Some(ChartElementId::Series(SeriesId::Volume)) => SelectionHandles::VolumeSeries,
        Some(ChartElementId::Series(SeriesId::Main)) => SelectionHandles::PriceSeries,
        Some(ChartElementId::PaneIndicator(_)) => SelectionHandles::Hidden,
    }
}

} // verus!
