//! Which fields a bar tooltip shows, and in which order.

use vstd::prelude::*;

verus! {

/// One field of a bar tooltip.
#[derive(Debug, Clone, Copy, PartialEq, Eq)]
pub enum TooltipRow {
    /// Bar time.
    Time,
    /// Open price.
    Open,
    /// High price.
    High,
    /// Low price.
    Low,
    /// Close price.
    Close,
    /// Volume.
    Volume,
    /// Change from the reference price, in percent.
    Change,
}

/// The rows shown: time, then open/high/low/close, then volume, then change,
/// each group present when its flag is set.
pub open spec fn tooltip_rows_spec(
    show_time: bool,
    show_ohlc: bool,
    show_volume: bool,
    show_change: bool,
) -> Seq<TooltipRow> {
    (if show_time { seq![TooltipRow::Time] } else { Seq::empty() })
        + (if show_ohlc {
        seq![TooltipRow::Open, TooltipRow::High, TooltipRow::Low, TooltipRow::Close]
    } else {
        Seq::empty()
    }) + (if show_volume { seq![TooltipRow::Volume] } else { Seq::empty() }) + (if show_change {
        seq![TooltipRow::Change]
    } else {
        Seq::empty()
    })
}

/// `a + b` holds `x` exactly when `a` or `b` does.
proof fn lemma_concat_contains(a: Seq<TooltipRow>, b: Seq<TooltipRow>, x: TooltipRow)
    ensures
        (a + b).contains(x) <==> a.contains(x) || b.contains(x),
{
    if a.contains(x) {
        let i = choose|i: int| 0 <= i < a.len() && a[i] == x;
        assert((a + b)[i] == x);
    }
    if b.contains(x) {
        let i = choose|i: int| 0 <= i < b.len() && b[i] == x;
        assert((a + b)[a.len() + i] == x);
    }
    if (a + b).contains(x) {
        let i = choose|i: int| 0 <= i < (a + b).len() && (a + b)[i] == x;
        if i < a.len() {
            assert(a[i] == x);
        } else {
            assert(b[i - a.len()] == x);
        }
    }
}

/// The open/high/low/close group holds exactly those four rows.
proof fn lemma_ohlc_group_contains(x: TooltipRow)
    ensures
        seq![TooltipRow::Open, TooltipRow::High, TooltipRow::Low, TooltipRow::Close].contains(x) <==> (x
            == TooltipRow::Open || x == TooltipRow::High || x == TooltipRow::Low || x == TooltipRow::Close),
{
    let g = seq![TooltipRow::Open, TooltipRow::High, TooltipRow::Low, TooltipRow::Close];
    assert(g[0] == TooltipRow::Open);
    assert(g[1] == TooltipRow::High);
    assert(g[2] == TooltipRow::Low);
    assert(g[3] == TooltipRow::Close);
}

/// A one-row group holds exactly its row.
proof fn lemma_single_contains(r: TooltipRow, x: TooltipRow)
    ensures
        seq![r].contains(x) <==> x == r,
{
    assert(seq![r][0] == r);
}

/// Each row of the tooltip is shown exactly when its option is set,
/// independently of the other options; time comes first and the change
/// last, and the count is one row per set option (four for OHLC).
pub proof fn lemma_tooltip_rows_follow_flags(
    show_time: bool,
    show_ohlc: bool,
    show_volume: bool,
    show_change: bool,
)
    ensures
        ({
            let rows = tooltip_rows_spec(show_time, show_ohlc, show_volume, show_change);
            &&& rows.contains(TooltipRow::Time) <==> show_time
            &&& rows.contains(TooltipRow::Open) <==> show_ohlc
            &&& rows.contains(TooltipRow::High) <==> show_ohlc
            &&& rows.contains(TooltipRow::Low) <==> show_ohlc
            &&& rows.contains(TooltipRow::Close) <==> show_ohlc
            &&& rows.contains(TooltipRow::Volume) <==> show_volume
            &&& rows.contains(TooltipRow::Change) <==> show_change
            &&& show_time ==> rows[0] == TooltipRow::Time
            &&& show_change ==> rows.last() == TooltipRow::Change
            &&& rows.len() == (if show_time { 1int } else { 0 }) + (if show_ohlc { 4int } else { 0 }) + (
            if show_volume { 1int } else { 0 }) + (if show_change { 1int } else { 0 })
        }),
{
    let a: Seq<TooltipRow> = if show_time { seq![TooltipRow::Time] } else { Seq::empty() };
    let b: Seq<TooltipRow> = if show_ohlc {
        seq![TooltipRow::Open, TooltipRow::High, TooltipRow::Low, TooltipRow::Close]
    } else {
        Seq::empty()
    };
    let c: Seq<TooltipRow> = if show_volume { seq![TooltipRow::Volume] } else { Seq::empty() };
    let d: Seq<TooltipRow> = if show_change { seq![TooltipRow::Change] } else { Seq::empty() };
    let rows = tooltip_rows_spec(show_time, show_ohlc, show_volume, show_change);
    assert(rows == a + b + c + d);
    assert forall|x: TooltipRow| #[trigger] rows.contains(x) <==> (a.contains(x) || b.contains(x)
        || c.contains(x) || d.contains(x)) by {
        lemma_concat_contains(a, b, x);
        lemma_concat_contains(a + b, c, x);
        lemma_concat_contains(a + b + c, d, x);
    }
    assert forall|x: TooltipRow|
        (#[trigger] a.contains(x) <==> (show_time && x == TooltipRow::Time)) && (b.contains(x) <==> (
        show_ohlc && (x == TooltipRow::Open || x == TooltipRow::High || x == TooltipRow::Low || x
            == TooltipRow::Close))) && (c.contains(x) <==> (show_volume && x == TooltipRow::Volume)) && (
        d.contains(x) <==> (show_change && x == TooltipRow::Change)) by {
        lemma_single_contains(TooltipRow::Time, x);
        lemma_ohlc_group_contains(x);
        lemma_single_contains(TooltipRow::Volume, x);
        lemma_single_contains(TooltipRow::Change, x);
    }
    assert(rows.contains(TooltipRow::Time) <==> show_time);
    assert(rows.contains(TooltipRow::Open) <==> show_ohlc);
    assert(rows.contains(TooltipRow::High) <==> show_ohlc);
    assert(rows.contains(TooltipRow::Low) <==> show_ohlc);
    assert(rows.contains(TooltipRow::Close) <==> show_ohlc);
    assert(rows.contains(TooltipRow::Volume) <==> show_volume);
    assert(rows.contains(TooltipRow::Change) <==> show_change);
    if show_time {
        assert(rows[0] == a[0]);
    }
    if show_change {
        assert(rows.last() == d[0]);
    }
}

/// Rows of a bar tooltip for the given display options, in display order.
/// The floating tooltip is not drawn when the result is empty; the tracking
/// tooltip still shows its bar.
pub fn tooltip_rows(show_time: bool, show_ohlc: bool, show_volume: bool, show_change: bool) -> (r:
    Vec<TooltipRow>)
    ensures
        r@ == tooltip_rows_spec(show_time, show_ohlc, show_volume, show_change),
        r@.contains(TooltipRow::Time) <==> show_time,
        r@.contains(TooltipRow::Open) <==> show_ohlc,
        r@.contains(TooltipRow::High) <==> show_ohlc,
        r@.contains(TooltipRow::Low) <==> show_ohlc,
        r@.contains(TooltipRow::Close) <==> show_ohlc,
        r@.contains(TooltipRow::Volume) <==> show_volume,
        r@.contains(TooltipRow::Change) <==> show_change,
        show_time ==> r@[0] == TooltipRow::Time,
        show_change ==> r@.last() == TooltipRow::Change,
        r@.len() == (if show_time { 1int } else { 0 }) + (if show_ohlc { 4int } else { 0 }) + (
        if show_volume { 1int } else { 0 }) + (if show_change { 1int } else { 0 }),
{
    let mut rows: Vec<TooltipRow> = Vec::new();
    if show_time {
        rows.push(TooltipRow::Time);
    }
    if show_ohlc {
        rows.push(TooltipRow::Open);
        rows.push(TooltipRow::High);
        rows.push(TooltipRow::Low);
        rows.push(TooltipRow::Close);
    }
    if show_volume {
        rows.push(TooltipRow::Volume);
    }
    if show_change {
        rows.push(TooltipRow::Change);
    }
    assert(rows@ =~= tooltip_rows_spec(show_time, show_ohlc, show_volume, show_change));
    proof {
        lemma_tooltip_rows_follow_flags(show_time, show_ohlc, show_volume, show_change);
    }
    rows
}

} // verus!
