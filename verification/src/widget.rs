//! The chart widget's view bookkeeping: visible-range requests, tracking and
//! zoom modes, one-frame interaction results, live-edge following on data
//! updates, and lookups over the bars rendered in the last frame.

use vstd::prelude::*;
use crate::cadence::{median_forward_gap, nearest_duration, instants_in_range, forward_gaps, positive_ms, median_ms, ms_distance};

verus! {

/// How the bars of the main chart are drawn.
#[derive(Debug, Clone, Copy, PartialEq, Eq, Structural)]
pub enum ChartType {
    /// Candlesticks.
    Candles,
    /// OHLC bars.
    Bars,
    /// Line through the closes.
    Line,
    /// Filled area under the closes.
    Area,
    /// Renko bricks.
    Renko,
    /// Kagi lines.
    Kagi,
}

/// Integer and boolean view state of a chart widget. `R` is the type of a
/// captured right-click target.
pub struct ChartViewState<R> {
    /// Starting index of the visible range.
    pub start_idx: usize,
    /// Desired number of visible bars.
    pub desired_visible_bars: Option<usize>,
    /// Number of visible bars computed in the last rendered frame (0 before
    /// the first frame).
    pub last_visible_bars: usize,
    /// Whether `desired_visible_bars` is applied on the next frame only.
    pub apply_visible_bars_once: bool,
    /// Start index to apply to the time scale once, on the next frame.
    pub pending_start_idx: Option<usize>,
    /// Whether tracking mode (following the latest bar) is active.
    pub tracking_mode_active: bool,
    /// Whether box-zoom mode is active.
    pub zoom_mode_active: bool,
    /// Whether a box zoom was completed in the last frame.
    pub zoom_just_applied: bool,
    /// Right-click target captured in the last frame.
    pub right_click: Option<R>,
    /// Registry index of a pane indicator whose close button was clicked.
    pub indicator_remove: Option<usize>,
    /// How the bars are drawn.
    pub chart_type: ChartType,
    /// Whether incoming bar data is checked for anomalies.
    pub validation_enabled: bool,
}

/// What the chart learns when its data is replaced.
pub struct DataUpdate {
    /// Number of bars before the update.
    pub prev_len: usize,
    /// Number of bars after the update.
    pub new_len: usize,
    /// Time (ns since the Unix epoch) of the last bar before the update, if any.
    pub old_tail_ns: Option<i128>,
    /// Time (ns since the Unix epoch) of the last bar after the update, if any.
    pub new_tail_ns: Option<i128>,
    /// Whether the close price of the last bar differs between the two.
    pub tail_close_changed: bool,
    /// Whether the view was within about 1.5 bars of the live edge.
    pub near_live: bool,
    /// Option: follow the live edge when new bars arrive.
    pub shift_visible_range_on_new_bar: bool,
    /// Option: also follow it when the last bar is replaced in place.
    pub allow_shift_visible_range_on_whitespace_replacement: bool,
}

/// New bars were appended: more bars than before and the last bar moved
/// forward in time.
pub open spec fn bars_appended(u: DataUpdate) -> bool {
    &&& u.new_len > u.prev_len
    &&& u.old_tail_ns is Some
    &&& u.new_tail_ns is Some
    &&& u.new_tail_ns.unwrap() > u.old_tail_ns.unwrap()
}

/// The last bar changed (in time or in close price).
pub open spec fn tail_changed(u: DataUpdate) -> bool {
    &&& u.old_tail_ns is Some
    &&& u.new_tail_ns is Some
    &&& (u.new_tail_ns.unwrap() != u.old_tail_ns.unwrap() || u.tail_close_changed)
}

/// The view follows the live edge after this update.
pub open spec fn follows_live_edge(u: DataUpdate) -> bool {
    &&& u.shift_visible_range_on_new_bar
    &&& u.near_live
    &&& (bars_appended(u) || (tail_changed(u) && !bars_appended(u)
        && u.allow_shift_visible_range_on_whitespace_replacement))
}

/// State after asking for the visible range to start at `index`: a move is
/// recorded only when the start actually changes.
pub open spec fn with_start_request<R>(s: ChartViewState<R>, index: usize) -> ChartViewState<R> {
    if index != s.start_idx {
        ChartViewState { start_idx: index, pending_start_idx: Some(index), ..s }
    } else {
        s
    }
}

/// State after asking for `count` visible bars: a request is recorded
/// unless `count` is the number of bars already shown.
pub open spec fn with_visible_bars_request<R>(s: ChartViewState<R>, count: usize) -> ChartViewState<R> {
    if s.last_visible_bars == 0 || count != s.last_visible_bars {
        ChartViewState { desired_visible_bars: Some(count), apply_visible_bars_once: true, ..s }
    } else {
        s
    }
}

/// State with tracking mode flipped.
pub open spec fn with_tracking_toggled<R>(s: ChartViewState<R>) -> ChartViewState<R> {
    ChartViewState { tracking_mode_active: !s.tracking_mode_active, ..s }
}

/// State after recording a (possible) pane-indicator remove request.
pub open spec fn with_indicator_remove<R>(s: ChartViewState<R>, pending: Option<usize>) -> ChartViewState<R> {
    if pending is Some {
        ChartViewState { indicator_remove: pending, ..s }
    } else {
        s
    }
}

/// State after draining the pane-indicator remove request.
pub open spec fn indicator_remove_drained<R>(s: ChartViewState<R>) -> ChartViewState<R> {
    ChartViewState { indicator_remove: None, ..s }
}

/// State after capturing the target of a right click.
pub open spec fn with_right_click<R>(s: ChartViewState<R>, target: R) -> ChartViewState<R> {
    ChartViewState { right_click: Some(target), ..s }
}

/// State after draining the right-click target.
pub open spec fn right_click_drained<R>(s: ChartViewState<R>) -> ChartViewState<R> {
    ChartViewState { right_click: None, ..s }
}

impl<R> ChartViewState<R> {
    /// The state of a freshly created chart: candlesticks, data validation
    /// on, start at index 0, nothing requested or captured, all modes off.
    pub fn new() -> (r: Self)
        ensures
            r.start_idx == 0,
            r.desired_visible_bars is None,
            r.last_visible_bars == 0,
            !r.apply_visible_bars_once,
            r.pending_start_idx is None,
            !r.tracking_mode_active,
            !r.zoom_mode_active,
            !r.zoom_just_applied,
            r.right_click is None,
            r.indicator_remove is None,
            r.chart_type == ChartType::Candles,
            r.validation_enabled,
    {
        ChartViewState {
            start_idx: 0,
            desired_visible_bars: None,
            last_visible_bars: 0,
            apply_visible_bars_once: false,
            pending_start_idx: None,
            tracking_mode_active: false,
            zoom_mode_active: false,
            zoom_just_applied: false,
            right_click: None,
            indicator_remove: None,
            chart_type: ChartType::Candles,
            validation_enabled: true,
        }
    }

    /// Sets the desired number of visible bars (builder pattern) and starts
    /// the view at the latest `count` of `data_len` bars.
    pub fn visible_bars(self, data_len: usize, count: usize) -> (r: Self)
        ensures
            r == (ChartViewState {
                desired_visible_bars: Some(count),
                start_idx: if data_len >= count { (data_len - count) as usize } else { 0 },
                ..self
            }),
    {
        let mut s = self;
        s.desired_visible_bars = Some(count);
        s.start_idx = data_len.saturating_sub(count);
        s
    }

    /// Sets the starting bar index of the visible range (builder pattern).
    pub fn start_idx(self, index: usize) -> (r: Self)
        ensures
            r == (ChartViewState { start_idx: index, ..self }),
    {
        let mut s = self;
        s.start_idx = index;
        s
    }

    /// Number of bars visible in the last rendered frame, or 100 before the
    /// first frame.
    pub fn get_visible_bars(&self) -> (r: usize)
        ensures
            r == (if self.last_visible_bars == 0 { 100 } else { self.last_visible_bars }),
    {
        if self.last_visible_bars == 0 {
            100
        } else {
            self.last_visible_bars
        }
    }

    /// Current starting bar index of the visible range.
    pub fn get_start_idx(&self) -> (r: usize)
        ensures
            r == self.start_idx,
    {
        self.start_idx
    }

    /// Requests `count` visible bars for the next frame, unless that is
    /// already the number shown.
    pub fn set_visible_bars(&mut self, count: usize)
        ensures
            *final(self) == with_visible_bars_request(*old(self), count),
            old(self).last_visible_bars == 0 || count != old(self).last_visible_bars ==> final(self).desired_visible_bars
                == Some(count) && final(self).apply_visible_bars_once,
            old(self).last_visible_bars != 0 && count == old(self).last_visible_bars ==> *final(self)
                == *old(self),
            final(self).start_idx == old(self).start_idx,
            final(self).last_visible_bars == old(self).last_visible_bars,
    {
        if self.last_visible_bars == 0 || count != self.last_visible_bars {
            self.desired_visible_bars = Some(count);
            self.apply_visible_bars_once = true;
        }
    }

    /// Moves the visible range to start at `index` on the next frame, unless
    /// it already starts there.
    pub fn set_start_idx(&mut self, index: usize)
        ensures
            *final(self) == with_start_request(*old(self), index),
            final(self).start_idx == index,
            index != old(self).start_idx ==> final(self).pending_start_idx == Some(index),
            index == old(self).start_idx ==> *final(self) == *old(self),
    {
        if index != self.start_idx {
            self.start_idx = index;
            self.pending_start_idx = Some(index);
        }
    }

    /// Turns tracking mode on; the caller then scrolls to the latest bar.
    pub fn enable_tracking_mode(&mut self)
        ensures
            *final(self) == (ChartViewState { tracking_mode_active: true, ..*old(self) }),
    {
        self.tracking_mode_active = true;
    }

    /// Turns tracking mode off.
    pub fn disable_tracking_mode(&mut self)
        ensures
            *final(self) == (ChartViewState { tracking_mode_active: false, ..*old(self) }),
    {
        self.tracking_mode_active = false;
    }

    /// Toggles tracking mode. Returns `true` when it was turned on, in which
    /// case the caller scrolls to the latest bar.
    pub fn toggle_tracking_mode(&mut self) -> (scroll: bool)
        ensures
            *final(self) == with_tracking_toggled(*old(self)),
            scroll == !old(self).tracking_mode_active,
            final(self).tracking_mode_active == !old(self).tracking_mode_active,
            final(self).start_idx == old(self).start_idx,
    {
        if self.tracking_mode_active {
            self.disable_tracking_mode();
            false
        } else {
            self.enable_tracking_mode();
            true
        }
    }

    /// Whether tracking mode is active.
    pub fn is_tracking_mode_active(&self) -> (r: bool)
        ensures
            r == self.tracking_mode_active,
    {
        self.tracking_mode_active
    }

    /// Sets how the bars are drawn, from the next frame on.
    pub fn set_chart_type(&mut self, chart_type: ChartType)
        ensures
            *final(self) == (ChartViewState { chart_type: chart_type, ..*old(self) }),
    {
        self.chart_type = chart_type;
    }

    /// How the bars are drawn.
    pub fn chart_type(&self) -> (r: ChartType)
        ensures
            r == self.chart_type,
    {
        self.chart_type
    }

    /// Turns on the anomaly checks (duplicate timestamps, price spikes) on
    /// incoming bar data.
    pub fn enable_validation(&mut self)
        ensures
            *final(self) == (ChartViewState { validation_enabled: true, ..*old(self) }),
    {
        self.validation_enabled = true;
    }

    /// Turns off the anomaly checks on incoming bar data.
    pub fn disable_validation(&mut self)
        ensures
            *final(self) == (ChartViewState { validation_enabled: false, ..*old(self) }),
    {
        self.validation_enabled = false;
    }

    /// Whether incoming bar data is checked for anomalies.
    pub fn is_validation_enabled(&self) -> (r: bool)
        ensures
            r == self.validation_enabled,
    {
        self.validation_enabled
    }

    /// Activates or deactivates box-zoom mode.
    pub fn set_zoom_mode(&mut self, active: bool)
        ensures
            *final(self) == (ChartViewState { zoom_mode_active: active, ..*old(self) }),
    {
        self.zoom_mode_active = active;
    }

    /// Whether a box zoom was completed in the most recent frame.
    pub fn zoom_was_applied(&self) -> (r: bool)
        ensures
            r == self.zoom_just_applied,
    {
        self.zoom_just_applied
    }

    /// Start of a frame: results of the previous frame (a completed box zoom,
    /// an undrained right-click) expire.
    pub fn begin_frame(&mut self)
        ensures
            *final(self) == (ChartViewState {
                zoom_just_applied: false,
                right_click: None,
                ..*old(self)
            }),
    {
        self.zoom_just_applied = false;
        self.right_click = None;
    }

    /// Captures the target of a right click in the chart area, replacing an
    /// earlier undrained capture; `take_right_click` hands it out.
    pub fn record_right_click(&mut self, target: R)
        ensures
            *final(self) == with_right_click(*old(self), target),
            final(self).right_click == Some(target),
    {
        self.right_click = Some(target);
    }

    /// Drains the right-click target captured during the last frame.
    pub fn take_right_click(&mut self) -> (r: Option<R>)
        ensures
            r == old(self).right_click,
            *final(self) == right_click_drained(*old(self)),
            final(self).right_click is None,
    {
        self.right_click.take()
    }

    /// Records a pane-indicator remove request found while rendering; a
    /// frame without one leaves an earlier, undrained request in place.
    pub fn record_indicator_remove(&mut self, pending: Option<usize>)
        ensures
            *final(self) == with_indicator_remove(*old(self), pending),
            pending is Some ==> final(self).indicator_remove == pending,
            pending is None ==> *final(self) == *old(self),
    {
        if pending.is_some() {
            self.indicator_remove = pending;
        }
    }

    /// Drains a pane-indicator remove request captured during the last frame.
    pub fn take_indicator_remove(&mut self) -> (r: Option<usize>)
        ensures
            r == old(self).indicator_remove,
            *final(self) == indicator_remove_drained(*old(self)),
            final(self).indicator_remove is None,
    {
        self.indicator_remove.take()
    }

    /// Applies a data update. Returns `true` when the view follows the live
    /// edge (the caller then scrolls to the latest bar); any pending start
    /// index is then cancelled.
    pub fn update_data(&mut self, update: &DataUpdate) -> (follow: bool)
        ensures
            follow == follows_live_edge(*update),
            follow ==> *final(self) == (ChartViewState { pending_start_idx: None, ..*old(self) }),
            !follow ==> *final(self) == *old(self),
            follow ==> update.near_live && update.shift_visible_range_on_new_bar,
            follow ==> (update.old_tail_ns matches Some(o) && update.new_tail_ns matches Some(n) && (n
                != o || update.tail_close_changed)),
            update.near_live && update.shift_visible_range_on_new_bar && update.new_len > update.prev_len
                && (update.old_tail_ns matches Some(o) && update.new_tail_ns matches Some(n) && n > o)
                ==> follow,
            !update.allow_shift_visible_range_on_whitespace_replacement && !(update.new_len
                > update.prev_len && (update.old_tail_ns matches Some(o) && update.new_tail_ns matches Some(
                n,
            ) && n > o)) ==> !follow,
    {
        let tail_time_advanced = match (update.old_tail_ns, update.new_tail_ns) {
            (Some(o), Some(n)) => n > o,
            _ => false,
        };
        let appended = update.new_len > update.prev_len && tail_time_advanced;
        let tail_changed = match (update.old_tail_ns, update.new_tail_ns) {
            (Some(o), Some(n)) => o != n || update.tail_close_changed,
            _ => false,
        };
        let is_whitespace_replacement = tail_changed && !appended;
        let should_shift_for_whitespace = is_whitespace_replacement
            && update.allow_shift_visible_range_on_whitespace_replacement;
        let should_auto_shift = update.shift_visible_range_on_new_bar && update.near_live && (
        appended || should_shift_for_whitespace);
        if should_auto_shift {
            self.pending_start_idx = None;
            true
        } else {
            false
        }
    }
}

/// Following the live edge on a data update: only a view that was near the
/// live edge, with the option to shift on new bars set, ever follows; an
/// update that appends bars (more bars, and the last bar later in time)
/// makes such a view follow; and without the whitespace-replacement option,
/// nothing but appended bars makes it follow. An update that leaves the last
/// bar's time and close unchanged never moves the view.
pub proof fn lemma_live_edge_following(u: DataUpdate)
    ensures
        follows_live_edge(u) ==> u.near_live,
        follows_live_edge(u) ==> u.shift_visible_range_on_new_bar,
        u.near_live && u.shift_visible_range_on_new_bar && u.new_len > u.prev_len && (u.old_tail_ns matches Some(
            o,
        ) && u.new_tail_ns matches Some(n) && n > o) ==> follows_live_edge(u),
        !u.allow_shift_visible_range_on_whitespace_replacement && follows_live_edge(u) ==> (u.new_len
            > u.prev_len && (u.old_tail_ns matches Some(o) && u.new_tail_ns matches Some(n) && n > o)),
        (u.old_tail_ns == u.new_tail_ns && !u.tail_close_changed) ==> !follows_live_edge(u),
{
}

/// Toggling tracking mode twice restores the state.
pub proof fn lemma_toggle_tracking_twice<R>(s: ChartViewState<R>)
    ensures
        with_tracking_toggled(with_tracking_toggled(s)) == s,
{
}

/// Asking twice for the same start index is the same as asking once.
pub proof fn lemma_start_request_idempotent<R>(s: ChartViewState<R>, index: usize)
    ensures
        with_start_request(with_start_request(s, index), index) == with_start_request(s, index),
{
}

/// A recorded pane-indicator remove request is handed out exactly once: the
/// first drain returns it, a second drain returns nothing.
pub proof fn lemma_indicator_remove_drains_once<R>(s: ChartViewState<R>, idx: usize)
    ensures
        with_indicator_remove(s, Some(idx)).indicator_remove == Some(idx),
        indicator_remove_drained(with_indicator_remove(s, Some(idx))).indicator_remove is None,
{
}

/// A captured right-click is handed out at most once: after a drain there is
/// nothing left to drain.
pub proof fn lemma_right_click_drains_once<R>(s: ChartViewState<R>)
    ensures
        right_click_drained(s).right_click is None,
        right_click_drained(right_click_drained(s)) == right_click_drained(s),
{
}

/// A captured right-click target is handed out by the next drain, which
/// leaves nothing behind.
pub proof fn lemma_right_click_capture_then_drain<R>(s: ChartViewState<R>, target: R)
    ensures
        with_right_click(s, target).right_click == Some(target),
        right_click_drained(with_right_click(s, target)).right_click is None,
        right_click_drained(with_right_click(s, target)) == right_click_drained(s),
{
}

/// Asking for the number of bars that is already shown changes nothing.
pub proof fn lemma_visible_bars_request_unchanged<R>(s: ChartViewState<R>)
    requires
        s.last_visible_bars != 0,
    ensures
        with_visible_bars_request(s, s.last_visible_bars) == s,
{
}

/// Some rendered bar has time `ts_ms` and position `x`.
pub open spec fn rendered_at<X>(bars: Seq<(i64, X)>, ts_ms: i64, x: X) -> bool {
    exists|i: int| 0 <= i < bars.len() && (#[trigger] bars[i]).0 == ts_ms && bars[i].1 == x
}

/// Some rendered bar has time `ts_ms`.
pub open spec fn has_rendered_ts<X>(bars: Seq<(i64, X)>, ts_ms: i64) -> bool {
    exists|i: int| 0 <= i < bars.len() && (#[trigger] bars[i]).0 == ts_ms
}

/// The rendered bars' times never decrease.
pub open spec fn rendered_ascending<X>(bars: Seq<(i64, X)>) -> bool {
    forall|i: int, j: int| 0 <= i <= j < bars.len() ==> (#[trigger] bars[i]).0 <= (#[trigger] bars[j]).0
}

/// Exact lookup of the screen position of the rendered bar whose time is
/// `ts_ms`, by bisection over bars sorted by time. No interpolation: a time
/// that matches no rendered bar gives `None`.
pub fn bar_x_at_ts<X: Copy>(bars: &Vec<(i64, X)>, ts_ms: i64) -> (r: Option<X>)
    ensures
        r matches Some(x) ==> rendered_at(bars@, ts_ms, x),
        rendered_ascending(bars@) ==> (r is None <==> !has_rendered_ts(bars@, ts_ms)),
{
    let mut lo: usize = 0;
    let mut hi: usize = bars.len();
    while lo < hi
        invariant
            0 <= lo <= hi <= bars@.len(),
            rendered_ascending(bars@) ==> forall|j: int| 0 <= j < lo ==> (#[trigger] bars@[j]).0 < ts_ms,
            rendered_ascending(bars@) ==> forall|j: int|
                hi <= j < bars@.len() ==> (#[trigger] bars@[j]).0 > ts_ms,
        decreases hi - lo,
    {
        let mid = lo + (hi - lo) / 2;
        let k = bars[mid].0;
        if k == ts_ms {
            let x = bars[mid].1;
            assert(bars@[mid as int].0 == ts_ms);
            return Some(x);
        } else if k < ts_ms {
            proof {
                if rendered_ascending(bars@) {
                    assert forall|j: int| 0 <= j < mid + 1 implies (#[trigger] bars@[j]).0 < ts_ms by {
                        assert(bars@[j].0 <= bars@[mid as int].0);
                    }
                }
            }
            lo = mid + 1;
        } else {
            proof {
                if rendered_ascending(bars@) {
                    assert forall|j: int| mid <= j < bars@.len() implies (#[trigger] bars@[j]).0 > ts_ms by {
                        assert(bars@[mid as int].0 <= bars@[j].0);
                    }
                }
            }
            hi = mid;
        }
    }
    None
}

/// Text of the chart watermark: the configured text, else the symbol, else
/// `"SYMBOL"` when no symbol is set.
pub fn watermark_text<'a>(configured: Option<&'a str>, symbol: &'a str) -> (r: &'a str)
    ensures
        r@ == match configured {
            Some(t) => t@,
            None => if symbol@.len() == 0 { "SYMBOL"@ } else { symbol@ },
        },
{
    match configured {
        Some(t) => t,
        None => if symbol.is_empty() {
            "SYMBOL"
        } else {
            symbol
        },
    }
}

/// Position of the timeframe preset whose duration is closest to the median
/// positive gap between the visible bars (first such preset on a tie).
/// `None` when the gap cannot be measured or there are no presets.
pub fn session_timeframe_preset(visible_ns: &Vec<i128>, preset_ms: &Vec<i64>) -> (r: Option<usize>)
    requires
        instants_in_range(visible_ns@),
        forall|i: int| 0 <= i < preset_ms@.len() ==> 0 <= #[trigger] preset_ms@[i],
    ensures
        forward_gaps(visible_ns@).filter(positive_ms()).len() == 0 ==> r is None,
        forward_gaps(visible_ns@).filter(positive_ms()).len() > 0 ==> {
            let m = median_ms(forward_gaps(visible_ns@).filter(positive_ms()));
            &&& r is None <==> preset_ms@.len() == 0
            &&& r matches Some(k) ==> {
                &&& k < preset_ms@.len()
                &&& forall|j: int|
                    0 <= j < preset_ms@.len() ==> ms_distance(preset_ms@[k as int], m)
                        <= ms_distance(#[trigger] preset_ms@[j], m)
                &&& forall|j: int|
                    0 <= j < k ==> ms_distance(preset_ms@[k as int], m) < ms_distance(
                        #[trigger] preset_ms@[j],
                        m,
                    )
            }
        },
{
    match median_forward_gap(visible_ns) {
        None => None,
        Some(m) => {
            proof {
                crate::cadence::lemma_positive_median(forward_gaps(visible_ns@));
            }
            nearest_duration(preset_ms, m)
        },
    }
}

/// How a click changes the chart-wide selection.
#[derive(Debug, Clone, Copy, PartialEq, Eq)]
pub enum SelectionChange<E> {
    /// Select an element, at the clicked bar when there is one.
    Select(E, Option<usize>),
    /// Clear the selection.
    Deselect,
}

/// A left click on the main chart: a hit element is selected at the hit
/// bar; a click on empty chart area clears the selection.
pub fn resolve_click<E>(hit: Option<(E, usize)>) -> (r: SelectionChange<E>)
    ensures
        hit matches Some((e, bar)) ==> r == SelectionChange::Select(e, Some(bar)),
        hit is None ==> r == SelectionChange::<E>::Deselect,
{
    match hit {
        Some((e, bar)) => SelectionChange::Select(e, Some(bar)),
        None => SelectionChange::Deselect,
    }
}

/// What a right click landed on.
#[derive(Debug, Clone, Copy, PartialEq, Eq)]
pub enum RightClickHit<E> {
    /// A drawing, by its id.
    Drawing(usize),
    /// A series or indicator element, at a bar.
    Element(E, usize),
    /// Empty chart area.
    Background,
}

/// A right click on the main chart. Drawings sit on top, so a drawing hit
/// wins and clears the element selection (the drawing itself gets
/// selected); otherwise a hit element is selected as by a left click, and a
/// click on empty area clears the selection.
pub fn resolve_right_click<E: Copy>(drawing_hit: Option<usize>, element_hit: Option<(E, usize)>) -> (r: (
    RightClickHit<E>,
    SelectionChange<E>,
))
    ensures
        drawing_hit matches Some(d) ==> r == (RightClickHit::<E>::Drawing(d), SelectionChange::<E>::Deselect),
        drawing_hit is None ==> (element_hit matches Some((e, bar)) ==> r == (
            RightClickHit::Element(e, bar),
            SelectionChange::Select(e, Some(bar)),
        )),
        drawing_hit is None && element_hit is None ==> r == (
            RightClickHit::<E>::Background,
            SelectionChange::<E>::Deselect,
        ),
{
    match drawing_hit {
        Some(d) => (RightClickHit::Drawing(d), SelectionChange::Deselect),
        None => match element_hit {
            Some((e, bar)) => (RightClickHit::Element(e, bar), SelectionChange::Select(e, Some(bar))),
            None => (RightClickHit::Background, SelectionChange::Deselect),
        },
    }
}

/// What happened on one indicator pane during a frame.
pub struct PaneEvent<E> {
    /// Registry index of the pane's indicator.
    pub index: usize,
    /// Whether the pane legend's close button was clicked.
    pub close_clicked: bool,
    /// `Some(hit)` when the pane body was clicked: the element hit, or
    /// `None` for empty pane area.
    pub click: Option<Option<E>>,
}

/// The combined effect of the pane events of a frame.
pub struct PaneClicks<E> {
    /// Selection change, if any pane body was clicked.
    pub selection: Option<SelectionChange<E>>,
    /// Registry index of an indicator to remove, if any close button was clicked.
    pub remove: Option<usize>,
}

/// The remove request of the last pane whose close button was clicked.
pub open spec fn pane_remove<E>(events: Seq<PaneEvent<E>>) -> Option<usize>
    decreases events.len(),
{
    if events.len() == 0 {
        None
    } else if events.last().close_clicked {
        Some(events.last().index)
    } else {
        pane_remove(events.drop_last())
    }
}

/// The selection change of the last pane whose body (not its close button)
/// was clicked: select the hit element without a bar, or clear.
pub open spec fn pane_selection<E>(events: Seq<PaneEvent<E>>) -> Option<SelectionChange<E>>
    decreases events.len(),
{
    if events.len() == 0 {
        None
    } else if !events.last().close_clicked && events.last().click is Some {
        Some(
            match events.last().click.unwrap() {
                Some(e) => SelectionChange::Select(e, None),
                None => SelectionChange::Deselect,
            },
        )
    } else {
        pane_selection(events.drop_last())
    }
}

/// Across the panes of a frame the last click wins: the removal request is
/// the index of the last pane whose close button was clicked (none when no
/// close button was), and the selection change comes from the last pane
/// whose body, not its close button, was clicked (none when no body was):
/// the element hit there is selected without a bar, or the selection is
/// cleared when the click hit empty pane area.
pub proof fn lemma_pane_clicks_last_wins<E>(events: Seq<PaneEvent<E>>)
    ensures
        pane_remove(events) is None <==> forall|i: int|
            0 <= i < events.len() ==> !(#[trigger] events[i]).close_clicked,
        pane_remove(events) matches Some(x) ==> exists|i: int|
            0 <= i < events.len() && events[i].close_clicked && events[i].index == x && forall|j: int|
                i < j < events.len() ==> !(#[trigger] events[j]).close_clicked,
        pane_selection(events) is None <==> forall|i: int|
            0 <= i < events.len() ==> !(!(#[trigger] events[i]).close_clicked && events[i].click is Some),
        pane_selection(events) matches Some(c) ==> exists|i: int|
            0 <= i < events.len() && !events[i].close_clicked && events[i].click is Some && c == (
            match events[i].click.unwrap() {
                Some(e) => SelectionChange::Select(e, None),
                None => SelectionChange::Deselect,
            }) && forall|j: int|
                i < j < events.len() ==> !(!(#[trigger] events[j]).close_clicked && events[j].click is Some),
    decreases events.len(),
{
    if events.len() > 0 {
        let rest = events.drop_last();
        let n = events.len() - 1;
        lemma_pane_clicks_last_wins(rest);
        assert forall|i: int| 0 <= i < rest.len() implies rest[i] == events[i] by {}
        if events[n].close_clicked {
            assert(pane_remove(events) == Some(events[n].index));
        } else {
            assert(pane_remove(events) == pane_remove(rest));
            if pane_remove(rest) is None {
                assert forall|i: int| 0 <= i < events.len() implies !(#[trigger] events[i]).close_clicked by {
                    if i < n {
                        assert(!rest[i].close_clicked);
                    }
                }
            } else {
                let i = choose|i: int|
                    0 <= i < rest.len() && rest[i].close_clicked && rest[i].index == pane_remove(
                        rest,
                    ).unwrap() && forall|j: int| i < j < rest.len() ==> !(#[trigger] rest[j]).close_clicked;
                assert(events[i] == rest[i]);
                assert forall|j: int| i < j < events.len() implies !(#[trigger] events[j]).close_clicked by {
                    if j < n {
                        assert(!rest[j].close_clicked);
                    }
                }
            }
        }
        if !events[n].close_clicked && events[n].click is Some {
            assert(pane_selection(events) == Some(
                match events[n].click.unwrap() {
                    Some(e) => SelectionChange::Select(e, None),
                    None => SelectionChange::<E>::Deselect,
                },
            ));
        } else {
            assert(pane_selection(events) == pane_selection(rest));
            if pane_selection(rest) is None {
                assert forall|i: int| 0 <= i < events.len() implies !(!(#[trigger] events[i]).close_clicked
                    && events[i].click is Some) by {
                    if i < n {
                        assert(!(!rest[i].close_clicked && rest[i].click is Some));
                    }
                }
            } else {
                let c = pane_selection(rest).unwrap();
                let i = choose|i: int|
                    0 <= i < rest.len() && !rest[i].close_clicked && rest[i].click is Some && c == (
                    match rest[i].click.unwrap() {
                        Some(e) => SelectionChange::Select(e, None),
                        None => SelectionChange::Deselect,
                    }) && forall|j: int|
                        i < j < rest.len() ==> !(!(#[trigger] rest[j]).close_clicked && rest[j].click is Some);
                assert(events[i] == rest[i]);
                assert forall|j: int| i < j < events.len() implies !(!(#[trigger] events[j]).close_clicked
                    && events[j].click is Some) by {
                    if j < n {
                        assert(!(!rest[j].close_clicked && rest[j].click is Some));
                    }
                }
            }
        }
    }
}

/// Combines the pane events of a frame, in pane order: the last clicked
/// pane decides the selection, the last clicked close button the removal,
/// and a close-button click never changes the selection.
pub fn resolve_pane_clicks<E>(events: Vec<PaneEvent<E>>) -> (r: PaneClicks<E>)
    ensures
        r.selection == pane_selection(events@),
        r.remove == pane_remove(events@),
{
    let ghost orig = events@;
    let mut rest = events;
    let mut selection: Option<SelectionChange<E>> = None;
    let mut remove: Option<usize> = None;
    while rest.len() > 0
        invariant
            pane_selection(orig) == (if selection is Some {
                selection
            } else {
                pane_selection(rest@)
            }),
            pane_remove(orig) == (if remove is Some {
                remove
            } else {
                pane_remove(rest@)
            }),
        decreases rest.len(),
    {
        let ghost before = rest@;
        let ev = rest.pop().unwrap();
        assert(before.drop_last() =~= rest@);
        assert(before.last() == ev);
        if remove.is_none() && ev.close_clicked {
            remove = Some(ev.index);
        }
        if selection.is_none() && !ev.close_clicked {
            match ev.click {
                Some(hit) => {
                    selection = Some(
                        match hit {
                            Some(e) => SelectionChange::Select(e, None),
                            None => SelectionChange::Deselect,
                        },
                    );
                },
                None => {},
            }
        }
    }
    PaneClicks { selection, remove }
}

} // verus!
