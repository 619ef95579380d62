//! Crosshair and magnifier support: which visible candle a bar index lands
//! on, and how the time under the crosshair is formatted.

use vstd::prelude::*;
use crate::cadence::instant_in_range;

verus! {

/// Position within the visible candles of the bar with global index
/// `global_idx`, when that bar is visible (`start_idx <= global_idx <
/// start_idx + visible_len`).
pub fn visible_local_index(global_idx: isize, start_idx: usize, visible_len: usize) -> (r: Option<usize>)
    ensures
        r is Some <==> start_idx <= global_idx < start_idx + visible_len,
        r matches Some(i) ==> i == global_idx - start_idx && i < visible_len,
{
    if global_idx < 0 {
        return None;
    }
    let g = global_idx as usize;
    if g < start_idx {
        return None;
    }
    let local = g - start_idx;
    if local >= visible_len {
        return None;
    }
    Some(local)
}

/// Time format for the crosshair's time label, chosen from the spacing of the
/// first two visible bars in whole seconds (`None` when fewer than two bars
/// are visible).
pub open spec fn crosshair_time_format(spacing_s: Option<int>) -> Seq<char> {
    match spacing_s {
        None => "%H:%M:%S"@,
        Some(s) => if s < 1 {
            "%H:%M:%S%.3f"@
        } else if s < 60 {
            "%H:%M:%S"@
        } else if s < 3600 {
            "%H:%M"@
        } else if s < 86400 {
            "%b %d %H:%M"@
        } else {
            "%b %d, %Y"@
        },
    }
}

/// The crosshair format by bar spacing in whole seconds: under a second
/// shows milliseconds, under a minute seconds, under an hour minutes, under
/// a day the date with the time, and a day or more the date alone; with
/// fewer than two bars, seconds.
pub proof fn lemma_crosshair_format_ranges(s: int)
    ensures
        crosshair_time_format(None) == "%H:%M:%S"@,
        s < 1 ==> crosshair_time_format(Some(s)) == "%H:%M:%S%.3f"@,
        1 <= s < 60 ==> crosshair_time_format(Some(s)) == "%H:%M:%S"@,
        60 <= s < 3600 ==> crosshair_time_format(Some(s)) == "%H:%M"@,
        3600 <= s < 86400 ==> crosshair_time_format(Some(s)) == "%b %d %H:%M"@,
        s >= 86400 ==> crosshair_time_format(Some(s)) == "%b %d, %Y"@,
{
}

/// Whole seconds between the first two instants (nanoseconds), by absolute
/// value (`None` for fewer than two).
pub open spec fn first_spacing_s(visible_ns: Seq<i128>) -> Option<int> {
    if visible_ns.len() < 2 {
        None
    } else {
        let d = visible_ns[1] - visible_ns[0];
        Some(if d >= 0 { d / 1_000_000_000 } else { (-d) / 1_000_000_000 })
    }
}

/// The `chrono` format string for the crosshair's time label: milliseconds
/// for sub-second bars, seconds, minutes, date and time for hourly bars, and
/// the date alone for daily or longer bars.
pub fn time_label_format(visible_ns: &Vec<i128>) -> (r: &'static str)
    requires
        visible_ns@.len() >= 2 ==> instant_in_range(visible_ns@[0]) && instant_in_range(
            visible_ns@[1],
        ),
    ensures
        r@ == crosshair_time_format(first_spacing_s(visible_ns@)),
        visible_ns@.len() < 2 ==> r@ == "%H:%M:%S"@,
        visible_ns@.len() >= 2 ==> {
            let d = visible_ns@[1] - visible_ns@[0];
            let s = if d >= 0 { d / 1_000_000_000 } else { (-d) / 1_000_000_000 };
            &&& s < 1 ==> r@ == "%H:%M:%S%.3f"@
            &&& 1 <= s < 60 ==> r@ == "%H:%M:%S"@
            &&& 60 <= s < 3600 ==> r@ == "%H:%M"@
            &&& 3600 <= s < 86400 ==> r@ == "%b %d %H:%M"@
            &&& s >= 86400 ==> r@ == "%b %d, %Y"@
        },
{
    if visible_ns.len() < 2 {
        return "%H:%M:%S";
    }
    let d: i128 = visible_ns[1] - visible_ns[0];
    let seconds: i128 = if d >= 0 {
        d / 1_000_000_000
    } else {
        (-d) / 1_000_000_000
    };
    if seconds < 1 {
        "%H:%M:%S%.3f"
    } else if seconds < 60 {
        "%H:%M:%S"
    } else if seconds < 3600 {
        "%H:%M"
    } else if seconds < 86400 {
        "%b %d %H:%M"
    } else {
        "%b %d, %Y"
    }
}

} // verus!
