//! Axis labels: label emphasis tiers, the extended bar index that time-axis
//! marks are generated over, and locating a time within that index.

use vstd::prelude::*;
use crate::cadence::{instant_in_range, instants_in_range, EARLIEST_NS, LATEST_NS};

verus! {

/// Emphasis of an axis label, from the weight of its tick mark.
#[derive(Debug, Clone, Copy, PartialEq, Eq)]
pub enum LabelTier {
    /// Major boundary (largest font).
    Major,
    /// Medium boundary.
    Medium,
    /// Minor mark (smallest font).
    Minor,
}

/// Tier of a mark whose weight reaches `major_from` or `medium_from`.
pub open spec fn tier_of(weight: u32, major_from: u32, medium_from: u32) -> LabelTier {
    if weight >= major_from {
        LabelTier::Major
    } else if weight >= medium_from {
        LabelTier::Medium
    } else {
        LabelTier::Minor
    }
}

/// Tier of a time-axis label; the thresholds are the month and day tick weights.
pub fn time_label_tier(weight: u32, month_weight: u32, day_weight: u32) -> (r: LabelTier)
    ensures
        r == tier_of(weight, month_weight, day_weight),
        weight >= month_weight ==> r == LabelTier::Major,
        day_weight <= weight < month_weight ==> r == LabelTier::Medium,
        weight < month_weight && weight < day_weight ==> r == LabelTier::Minor,
{
    if weight >= month_weight {
        LabelTier::Major
    } else if weight >= day_weight {
        LabelTier::Medium
    } else {
        LabelTier::Minor
    }
}

/// Tier of a price-axis label: weight 80 and above is major (round numbers),
/// 60 and above medium, the rest minor.
pub fn price_label_tier(weight: u32) -> (r: LabelTier)
    ensures
        r == tier_of(weight, 80, 60),
        weight >= 80 ==> r == LabelTier::Major,
        60 <= weight < 80 ==> r == LabelTier::Medium,
        weight < 60 ==> r == LabelTier::Minor,
{
    time_label_tier(weight, 80, 60)
}

/// Upper bound on the number of time-axis marks: the number of marks that
/// fit at the minimum spacing plus two, kept between 6 and 24.
pub fn max_time_marks(fitting: usize) -> (r: usize)
    requires
        fitting + 2 <= usize::MAX,
    ensures
        r == (if fitting + 2 < 6 {
            6
        } else if fitting + 2 > 24 {
            24
        } else {
            fitting + 2
        }),
{
    let n = fitting + 2;
    if n < 6 {
        6
    } else if n > 24 {
        24
    } else {
        n
    }
}

/// Bars added to the left of the visible data: up to ten, never past index 0.
pub open spec fn left_extension(start_idx: usize) -> int {
    if start_idx < 10 {
        start_idx as int
    } else {
        10
    }
}

/// Time (ns) of entry `k` of the extended index: `left` extrapolated bars
/// before the visible instants `t`, then `t`, then bars extrapolated after
/// it, all `step` milliseconds apart outside the visible range.
pub open spec fn extended_time(t: Seq<i128>, step: int, left: int, k: int) -> int {
    if k < left {
        t[0] - step * 1_000_000 * (left - k)
    } else if k < left + t.len() {
        t[k - left] as int
    } else {
        t[t.len() - 1] + step * 1_000_000 * (k - left - t.len() + 1)
    }
}

/// Bar index of entry `k` of the extended index: indices count on from
/// `start_idx` at the first visible bar; those after the visible range stop
/// at `usize::MAX`.
pub open spec fn extended_index(start_idx: usize, left: int, k: int) -> int {
    if start_idx - left + k > usize::MAX {
        usize::MAX as int
    } else {
        start_idx - left + k
    }
}

/// Step used for extrapolation: the bar duration, at least one millisecond.
pub open spec fn extension_step(bar_duration_ms: i64) -> int {
    if bar_duration_ms > 1 {
        bar_duration_ms as int
    } else {
        1
    }
}

/// The bar index that time-axis marks are generated over, together with the
/// time range it covers (instants in nanoseconds since the Unix epoch).
pub struct TimeMarkBars {
    /// Time of the first (extrapolated) entry.
    pub start_ns: i128,
    /// Time of the last (extrapolated) entry.
    pub end_ns: i128,
    /// `(time, bar index)` for every entry, in order.
    pub bars: Vec<(i128, usize)>,
}

/// The extended index can be built: the visible instants and the
/// extrapolated ones are instants a UTC date-time can hold, the visible bar
/// indices fit in `usize`, and the entries fit in a vector.
pub open spec fn extension_fits(
    visible_ns: Seq<i128>,
    start_idx: usize,
    bar_duration_ms: i64,
    right_bars: i64,
) -> bool {
    let step = extension_step(bar_duration_ms);
    let left = left_extension(start_idx);
    let right = right_bars + 2;
    visible_ns.len() > 0 ==> {
        &&& instants_in_range(visible_ns)
        &&& start_idx <= i64::MAX
        &&& 0 <= right_bars
        &&& right_bars + 2 <= i64::MAX
        &&& start_idx + visible_ns.len() - 1 <= usize::MAX
        &&& left + visible_ns.len() + right <= usize::MAX
        &&& visible_ns[0] - step * 1_000_000 * left >= EARLIEST_NS
        &&& visible_ns[visible_ns.len() - 1] + step * 1_000_000 * right <= LATEST_NS
    }
}

/// Builds the bar index for time-axis marks: up to ten bars before the
/// visible data (never before index 0), the visible bars with indices
/// counting from `start_idx`, and `right_bars + 2` bars after it, the
/// extrapolated ones spaced one bar duration apart. `None` when nothing is
/// visible.
pub fn time_mark_bars(
    visible_ns: &Vec<i128>,
    start_idx: usize,
    bar_duration_ms: i64,
    right_bars: i64,
) -> (r: Option<TimeMarkBars>)
    requires
        extension_fits(visible_ns@, start_idx, bar_duration_ms, right_bars),
    ensures
        r is None <==> visible_ns@.len() == 0,
        r matches Some(m) ==> {
            let t = visible_ns@;
            let step = extension_step(bar_duration_ms);
            let left = left_extension(start_idx);
            let right = right_bars + 2;
            &&& m.bars@.len() == left + t.len() + right
            &&& m.start_ns == t[0] - step * 1_000_000 * left
            &&& m.end_ns == t[t.len() - 1] + step * 1_000_000 * right
            &&& forall|k: int|
                0 <= k < m.bars@.len() ==> {
                    &&& (#[trigger] m.bars@[k]).0 == extended_time(t, step, left, k)
                    &&& m.bars@[k].1 == extended_index(start_idx, left, k)
                }
        },
        r matches Some(m) ==> {
            let t = visible_ns@;
            let n = t.len() as int;
            let left: int = if start_idx < 10 { start_idx as int } else { 10 };
            let step_ns: int = if bar_duration_ms >= 1 { bar_duration_ms * 1_000_000 } else { 1_000_000 };
            let right: int = right_bars + 2;
            &&& m.bars@.len() == left + n + right
            &&& m.start_ns == t[0] - step_ns * left
            &&& m.end_ns == t[n - 1] + step_ns * right
            &&& forall|k: int|
                0 <= k < left ==> (#[trigger] m.bars@[k]).0 == t[0] - step_ns * (left - k) && m.bars@[k].1
                    == start_idx - left + k
            &&& forall|k: int|
                left <= k < left + n ==> (#[trigger] m.bars@[k]).0 == t[k - left] && m.bars@[k].1
                    == start_idx - left + k
            &&& forall|k: int|
                left + n <= k < left + n + right ==> (#[trigger] m.bars@[k]).0 == t[n - 1] + step_ns * (k
                    - left - n + 1) && m.bars@[k].1 == (if start_idx - left + k > usize::MAX {
                    usize::MAX as int
                } else {
                    start_idx - left + k
                })
        },
{
    let n = visible_ns.len();
    if n == 0 {
        return None;
    }
    let ghost t = visible_ns@;
    let step: i64 = if bar_duration_ms > 1 {
        bar_duration_ms
    } else {
        1
    };
    let left: usize = if start_idx < 10 {
        start_idx
    } else {
        10
    };
    let right: i64 = right_bars + 2;
    let first: i128 = visible_ns[0];
    let last: i128 = visible_ns[n - 1];
    assert(instant_in_range(t[0]));
    assert(instant_in_range(t[n - 1]));
    let step_ns: i128 = (step as i128) * 1_000_000;
    let mut bars: Vec<(i128, usize)> = Vec::new();

    // Extrapolated bars before the visible data.
    let mut i: usize = left;
    while i > 0
        invariant
            0 <= i <= left,
            left == left_extension(start_idx),
            left <= start_idx,
            step == extension_step(bar_duration_ms),
            step >= 1,
            step_ns == step * 1_000_000,
            first == t[0],
            instant_in_range(t[0]),
            t[0] - step_ns * left >= EARLIEST_NS,
            bars@.len() == left - i,
            forall|k: int|
                0 <= k < bars@.len() ==> {
                    &&& (#[trigger] bars@[k]).0 == t[0] - step * 1_000_000 * (left - k)
                    &&& bars@[k].1 == extended_index(start_idx, left as int, k)
                },
        decreases i,
    {
        proof {
            assert(step_ns * i <= step_ns * left) by (nonlinear_arith)
                requires
                    i <= left,
                    step_ns >= 1,
            ;
            assert(step_ns * i >= 0) by (nonlinear_arith)
                requires
                    i >= 0,
                    step_ns >= 1,
            ;
        }
        let off: i128 = step_ns * (i as i128);
        proof {
            assert(step * 1_000_000 * (left - bars@.len()) == step_ns * i);
        }
        bars.push((first - off, start_idx - i));
        i = i - 1;
    }

    // The visible bars.
    let mut j: usize = 0;
    while j < n
        invariant
            0 <= j <= n,
            n == t.len(),
            t == visible_ns@,
            left == left_extension(start_idx),
            left <= start_idx,
            step == extension_step(bar_duration_ms),
            start_idx + n - 1 <= usize::MAX,
            bars@.len() == left + j,
            forall|k: int|
                0 <= k < bars@.len() ==> {
                    &&& (#[trigger] bars@[k]).0 == extended_time(t, step as int, left as int, k)
                    &&& bars@[k].1 == extended_index(start_idx, left as int, k)
                },
        decreases n - j,
    {
        bars.push((visible_ns[j], start_idx + j));
        j = j + 1;
    }

    // Extrapolated bars after the visible data.
    let last_idx: usize = start_idx + (n - 1);
    let right_n: usize = right as usize;
    let mut q: usize = 1;
    while q <= right_n
        invariant
            1 <= q <= right + 1,
            right_n == right,
            right == right_bars + 2,
            right >= 2,
            left + n + right <= usize::MAX,
            n == t.len(),
            n > 0,
            last == t[n - 1],
            last_idx == start_idx + n - 1,
            left == left_extension(start_idx),
            left <= start_idx,
            step == extension_step(bar_duration_ms),
            step >= 1,
            step_ns == step * 1_000_000,
            instant_in_range(t[n - 1]),
            t[t.len() - 1] + step_ns * right <= LATEST_NS,
            bars@.len() == left + n + q - 1,
            forall|k: int|
                0 <= k < bars@.len() ==> {
                    &&& (#[trigger] bars@[k]).0 == extended_time(t, step as int, left as int, k)
                    &&& bars@[k].1 == extended_index(start_idx, left as int, k)
                },
        decreases right + 1 - q,
    {
        proof {
            assert(step_ns * q <= step_ns * right) by (nonlinear_arith)
                requires
                    q <= right,
                    step_ns >= 1,
            ;
            assert(step_ns * q >= 0) by (nonlinear_arith)
                requires
                    q >= 0,
                    step_ns >= 1,
            ;
        }
        let off: i128 = step_ns * (q as i128);
        proof {
            let k = bars@.len() as int;
            assert(step * 1_000_000 * (k - left - n + 1) == step_ns * q);
        }
        bars.push((last + off, last_idx.saturating_add(q)));
        q = q + 1;
    }
    proof {
        assert(step_ns * left >= 0) by (nonlinear_arith)
            requires
                left >= 0,
                step_ns >= 1,
        ;
        assert(step_ns * right >= 0) by (nonlinear_arith)
            requires
                right >= 0,
                step_ns >= 1,
        ;
    }
    let start_ns: i128 = first - step_ns * (left as i128);
    let end_ns: i128 = last + step_ns * (right as i128);
    proof {
        assert(step_ns == (if bar_duration_ms >= 1 { bar_duration_ms * 1_000_000 } else { 1_000_000 }));
    }
    Some(TimeMarkBars { start_ns, end_ns, bars })
}

/// Outside the visible range, neighbouring entries of the extended index are
/// exactly one bar duration apart (one millisecond when the duration is
/// below one millisecond), on the left as on the right.
pub proof fn lemma_extrapolation_spacing(t: Seq<i128>, bar_duration_ms: i64, left: int, k: int)
    requires
        t.len() > 0,
        left >= 0,
        (0 <= k && k + 1 <= left) || k >= left + t.len() - 1,
    ensures
        extended_time(t, extension_step(bar_duration_ms), left, k + 1) - extended_time(
            t,
            extension_step(bar_duration_ms),
            left,
            k,
        ) == (if bar_duration_ms >= 1 { bar_duration_ms * 1_000_000 } else { 1_000_000 }),
{
    let step = extension_step(bar_duration_ms);
    let n = t.len() as int;
    let s = step * 1_000_000;
    assert(s == (if bar_duration_ms >= 1 { bar_duration_ms * 1_000_000 } else { 1_000_000 }));
    if k + 1 <= left {
        assert(s * (left - k) - s * (left - k - 1) == s) by (nonlinear_arith);
        if k + 1 == left {
            assert(s * (left - k) == s) by (nonlinear_arith)
                requires
                    left - k == 1,
            ;
        }
    } else {
        assert(s * (k + 1 - left - n + 1) - s * (k - left - n + 1) == s) by (nonlinear_arith);
        if k == left + n - 1 {
            assert(s * (k + 1 - left - n + 1) == s) by (nonlinear_arith)
                requires
                    k + 1 - left - n + 1 == 1,
            ;
        }
    }
}

/// The entries' times never decrease.
pub open spec fn times_ascending(bars: Seq<(i128, usize)>) -> bool {
    forall|i: int, j: int| 0 <= i <= j < bars.len() ==> (#[trigger] bars[i]).0 <= (#[trigger] bars[j]).0
}

/// Locates `time_ns` among the entries of an extended bar index.
///
/// Returns positions `(lo, hi)` of the two entries to interpolate between:
/// `(0, 0)` at or before the first entry, `(last, last)` at or after the last
/// one, and otherwise two neighbours with `bars[lo].0 <= time_ns < bars[hi].0`
/// found by bisection. `None` when there are no entries.
pub fn time_bracket(bars: &Vec<(i128, usize)>, time_ns: i128) -> (r: Option<(usize, usize)>)
    ensures
        r is None <==> bars@.len() == 0,
        r matches Some((lo, hi)) ==> {
            let b = bars@;
            let last = b.len() - 1;
            &&& time_ns <= b[0].0 ==> lo == 0 && hi == 0
            &&& b[0].0 < time_ns && time_ns >= b[last].0 ==> lo == last && hi == last
            &&& b[0].0 < time_ns < b[last].0 ==> {
                &&& hi == lo + 1
                &&& hi < b.len()
                &&& b[lo as int].0 <= time_ns < b[hi as int].0
                &&& times_ascending(b) ==> {
                    &&& forall|j: int| 0 <= j <= lo ==> (#[trigger] b[j]).0 <= time_ns
                    &&& forall|j: int| hi <= j < b.len() ==> (#[trigger] b[j]).0 > time_ns
                }
            }
        },
{
    if bars.len() == 0 {
        return None;
    }
    if time_ns <= bars[0].0 {
        return Some((0, 0));
    }
    let last = bars.len() - 1;
    if time_ns >= bars[last].0 {
        return Some((last, last));
    }
    let mut lo: usize = 0;
    let mut hi: usize = last;
    while lo + 1 < hi
        invariant
            0 <= lo < hi <= last,
            last == bars@.len() - 1,
            bars@[lo as int].0 <= time_ns < bars@[hi as int].0,
        decreases hi - lo,
    {
        let mid = lo + (hi - lo) / 2;
        if bars[mid].0 <= time_ns {
            lo = mid;
        } else {
            hi = mid;
        }
    }
    proof {
        if times_ascending(bars@) {
            assert forall|j: int| 0 <= j <= lo implies (#[trigger] bars@[j]).0 <= time_ns by {
                assert(bars@[j].0 <= bars@[lo as int].0);
            }
            assert forall|j: int| hi <= j < bars@.len() implies (#[trigger] bars@[j]).0 > time_ns by {
                assert(bars@[hi as int].0 <= bars@[j].0);
            }
        }
    }
    Some((lo, hi))
}

/// A label is major from the major threshold on, medium from the medium
/// threshold up to the major one, and minor below both.
pub proof fn lemma_tier_thresholds(weight: u32, major_from: u32, medium_from: u32)
    ensures
        weight >= major_from ==> tier_of(weight, major_from, medium_from) == LabelTier::Major,
        medium_from <= weight < major_from ==> tier_of(weight, major_from, medium_from)
            == LabelTier::Medium,
        weight < major_from && weight < medium_from ==> tier_of(weight, major_from, medium_from)
            == LabelTier::Minor,
{
}

/// A heavier tick mark never gets a less emphasized label.
pub proof fn lemma_tier_monotone(w1: u32, w2: u32, major_from: u32, medium_from: u32)
    requires
        w1 <= w2,
    ensures
        tier_of(w1, major_from, medium_from) == LabelTier::Major ==> tier_of(w2, major_from, medium_from)
            == LabelTier::Major,
        tier_of(w2, major_from, medium_from) == LabelTier::Minor ==> tier_of(w1, major_from, medium_from)
            == LabelTier::Minor,
{
}

proof fn lemma_step_mul_le(step: int, a: int, b: int)
    requires
        step >= 1,
        a <= b,
    ensures
        step * a <= step * b,
{
    assert(step * a <= step * b) by (nonlinear_arith)
        requires
            step >= 1,
            a <= b,
    ;
}

/// When the visible times never decrease, neither do the times of the
/// extended index built around them, so locating a time in it by bisection
/// finds the unique neighbouring pair.
pub proof fn lemma_extended_times_ascending(t: Seq<i128>, step: int, left: int, k1: int, k2: int)
    requires
        t.len() > 0,
        forall|i: int, j: int| 0 <= i <= j < t.len() ==> t[i] <= t[j],
        step >= 1,
        left >= 0,
        0 <= k1 <= k2,
    ensures
        extended_time(t, step, left, k1) <= extended_time(t, step, left, k2),
{
    let n = t.len() as int;
    if k2 < left {
        lemma_step_mul_le(step * 1_000_000, left - k2, left - k1);
    } else if k2 < left + n {
        if k1 < left {
            lemma_step_mul_le(step * 1_000_000, 0, left - k1);
            assert(t[0] <= t[k2 - left]);
        } else {
            assert(t[k1 - left] <= t[k2 - left]);
        }
    } else {
        lemma_step_mul_le(step * 1_000_000, 0, k2 - left - n + 1);
        if k1 < left {
            lemma_step_mul_le(step * 1_000_000, 0, left - k1);
            assert(t[0] <= t[n - 1]);
        } else if k1 < left + n {
            assert(t[k1 - left] <= t[n - 1]);
        } else {
            lemma_step_mul_le(step * 1_000_000, k1 - left - n + 1, k2 - left - n + 1);
        }
    }
}

} // verus!
