//! Bar cadence: the typical spacing between consecutive bar timestamps.
//! Bar times are instants in nanoseconds since the Unix epoch; spacings are
//! whole milliseconds, truncated toward zero, and are measured as the median
//! of the positive gaps.

use vstd::prelude::*;
use vstd::relations::{sorted_by, total_ordering};
use vstd::multiset::Multiset;

verus! {

/// Earliest instant a UTC date-time can hold (January 1 of year -262143),
/// in nanoseconds since the Unix epoch.
pub const EARLIEST_NS: i128 = -8334601315200000000000;

/// Latest instant a UTC date-time can hold (the last nanosecond of year
/// 262142), in nanoseconds since the Unix epoch.
pub const LATEST_NS: i128 = 8210266876799999999999;

/// `x` is an instant a UTC date-time can hold.
pub open spec fn instant_in_range(x: i128) -> bool {
    EARLIEST_NS <= x <= LATEST_NS
}

/// Every entry of `t` is an instant a UTC date-time can hold.
pub open spec fn instants_in_range(t: Seq<i128>) -> bool {
    forall|i: int| 0 <= i < t.len() ==> instant_in_range(#[trigger] t[i])
}

/// Whole milliseconds in a span of `d` nanoseconds, truncated toward zero.
pub open spec fn whole_ms(d: int) -> int {
    if d >= 0 {
        d / 1_000_000
    } else {
        -((-d) / 1_000_000)
    }
}

/// Ascending order on milliseconds.
pub open spec fn ms_leq() -> spec_fn(i64, i64) -> bool {
    |a: i64, b: i64| a <= b
}

/// The values of `s`, sorted ascending.
pub open spec fn sorted_ms(s: Seq<i64>) -> Seq<i64> {
    s.sort_by(ms_leq())
}

/// The median of `s`: the element at position `len / 2` once sorted
/// ascending (the upper median for an even count).
pub open spec fn median_ms(s: Seq<i64>) -> i64 {
    sorted_ms(s)[(s.len() / 2) as int]
}

/// Keeps the strictly positive values.
pub open spec fn positive_ms() -> spec_fn(i64) -> bool {
    |d: i64| d > 0
}

/// The gaps from each instant to the next, in whole milliseconds.
pub open spec fn forward_gaps(t: Seq<i128>) -> Seq<i64> {
    if t.len() == 0 {
        Seq::empty()
    } else {
        Seq::new((t.len() - 1) as nat, |i: int| whole_ms(t[i + 1] - t[i]) as i64)
    }
}

/// The absolute gaps between consecutive instants, in whole milliseconds.
pub open spec fn absolute_gaps(t: Seq<i128>) -> Seq<i64> {
    if t.len() == 0 {
        Seq::empty()
    } else {
        Seq::new(
            (t.len() - 1) as nat,
            |i: int|
                if t[i + 1] >= t[i] {
                    whole_ms(t[i + 1] - t[i]) as i64
                } else {
                    whole_ms(t[i] - t[i + 1]) as i64
                },
        )
    }
}

/// Typical spacing between consecutive bars: the median of the positive
/// absolute gaps, or one minute (60 000 ms) when no gap is positive.
pub open spec fn typical_bar_ms(t: Seq<i128>) -> i64 {
    if absolute_gaps(t).filter(positive_ms()).len() == 0 {
        60_000
    } else {
        median_ms(absolute_gaps(t).filter(positive_ms()))
    }
}

/// Whole milliseconds from instant `a` to instant `b`, truncated toward zero.
fn ms_between(a: i128, b: i128) -> (r: i64)
    requires
        instant_in_range(a),
        instant_in_range(b),
    ensures
        r == whole_ms(b - a),
{
    let d: i128 = b - a;
    if d >= 0 {
        let q: i128 = d / 1_000_000;
        assert(q <= 20_000_000_000_000_000);
        q as i64
    } else {
        let q: i128 = (-d) / 1_000_000;
        assert(q <= 20_000_000_000_000_000);
        -(q as i64)
    }
}

proof fn lemma_ms_leq_total()
    ensures
        total_ordering(ms_leq()),
{
}

/// Sorts ascending by repeatedly moving the smallest remaining value out.
fn sort_ms(v: Vec<i64>) -> (r: Vec<i64>)
    ensures
        r@ == sorted_ms(v@),
        r@.len() == v@.len(),
{
    broadcast use vstd::seq_lib::group_to_multiset_ensures;
    broadcast use vstd::multiset::group_multiset_axioms;

    let ghost orig = v@;
    let mut rest = v;
    let mut out: Vec<i64> = Vec::new();
    proof {
        assert(out@.to_multiset() =~= Multiset::empty());
    }
    while rest.len() > 0
        invariant
            sorted_by(out@, ms_leq()),
            forall|a: int, b: int|
                0 <= a < out@.len() && 0 <= b < rest@.len() ==> out@[a] <= rest@[b],
            out@.to_multiset().add(rest@.to_multiset()) == orig.to_multiset(),
        decreases rest.len(),
    {
        let mut m: usize = 0;
        let mut k: usize = 1;
        while k < rest.len()
            invariant
                0 <= m < k <= rest@.len(),
                forall|b: int| 0 <= b < k ==> rest@[m as int] <= rest@[b],
            decreases rest@.len() - k,
        {
            if rest[k] < rest[m] {
                m = k;
            }
            k = k + 1;
        }
        let ghost before_rest = rest@;
        let ghost before_out = out@;
        let x = rest.remove(m);
        out.push(x);
        proof {
            assert forall|a: int, b: int| 0 <= a < out@.len() && 0 <= b < rest@.len() implies out@[a]
                <= rest@[b] by {
                if b < m {
                    assert(rest@[b] == before_rest[b]);
                } else {
                    assert(rest@[b] == before_rest[b + 1]);
                }
                if a < before_out.len() {
                    assert(out@[a] == before_out[a]);
                }
            }
            assert forall|a: int, b: int| 0 <= a < b < out@.len() implies #[trigger] (ms_leq())(
                out@[a],
                out@[b],
            ) by {
                if b < before_out.len() {
                    assert((ms_leq())(before_out[a], before_out[b]));
                } else {
                    assert(before_out[a] <= before_rest[m as int]);
                }
            }
            assert(before_rest.remove(m as int) == rest@);
            assert(out@ == before_out.push(x));
            vstd::seq_lib::to_multiset_build(before_out, x);
            vstd::seq_lib::to_multiset_remove(before_rest, m as int);
            assert(before_rest.remove(m as int).to_multiset() == before_rest.to_multiset().remove(
                x,
            ));
            assert(before_rest[m as int] == x);
            vstd::seq_lib::to_multiset_contains(before_rest, x);
            assert(before_rest.to_multiset().contains(x));
            assert(out@.to_multiset().add(rest@.to_multiset()) =~= before_out.to_multiset().add(
                before_rest.to_multiset(),
            ));
        }
    }
    proof {
        assert(rest@.to_multiset() =~= Multiset::empty());
        assert(out@.to_multiset() =~= orig.to_multiset());
        lemma_ms_leq_total();
        orig.lemma_sort_by_ensures(ms_leq());
        vstd::seq_lib::lemma_sorted_unique(out@, orig.sort_by(ms_leq()), ms_leq());
        vstd::seq_lib::to_multiset_len(out@);
        vstd::seq_lib::to_multiset_len(orig);
    }
    out
}

/// Filtering one more element of a prefix appends it exactly when it is kept.
pub(crate) proof fn lemma_filter_take_step<A>(s: Seq<A>, p: spec_fn(A) -> bool, j: int)
    requires
        0 <= j < s.len(),
    ensures
        s.take(j + 1).filter(p) == (if p(s[j]) {
            s.take(j).filter(p).push(s[j])
        } else {
            s.take(j).filter(p)
        }),
{
    reveal(Seq::filter);
    assert(s.take(j + 1).drop_last() =~= s.take(j));
}

/// The positive gaps between consecutive instants in whole milliseconds,
/// either signed (`absolute == false`) or taken by absolute value.
fn positive_gaps(times_ns: &Vec<i128>, absolute: bool) -> (r: Vec<i64>)
    requires
        instants_in_range(times_ns@),
    ensures
        absolute ==> r@ == absolute_gaps(times_ns@).filter(positive_ms()),
        !absolute ==> r@ == forward_gaps(times_ns@).filter(positive_ms()),
{
    let ghost t = times_ns@;
    let ghost gaps = if absolute {
        absolute_gaps(t)
    } else {
        forward_gaps(t)
    };
    let mut out: Vec<i64> = Vec::new();
    if times_ns.len() == 0 {
        proof {
            reveal(Seq::filter);
        }
        return out;
    }
    let n = times_ns.len() - 1;
    let mut i: usize = 0;
    proof {
        reveal(Seq::filter);
        assert(gaps.take(0) =~= Seq::<i64>::empty());
    }
    while i < n
        invariant
            n + 1 == t.len(),
            t == times_ns@,
            instants_in_range(t),
            gaps.len() == n,
            gaps == (if absolute {
                absolute_gaps(t)
            } else {
                forward_gaps(t)
            }),
            0 <= i <= n,
            out@ == gaps.take(i as int).filter(positive_ms()),
        decreases n - i,
    {
        let a = times_ns[i];
        let b = times_ns[i + 1];
        assert(instant_in_range(t[i as int]));
        assert(instant_in_range(t[i + 1]));
        let d: i64 = if absolute && b < a {
            ms_between(b, a)
        } else {
            ms_between(a, b)
        };
        proof {
            lemma_filter_take_step(gaps, positive_ms(), i as int);
            assert(gaps[i as int] == d);
        }
        if d > 0 {
            out.push(d);
        }
        i = i + 1;
    }
    proof {
        assert(gaps.take(n as int) =~= gaps);
    }
    out
}

/// Typical spacing between consecutive bars in whole milliseconds: the
/// median of the positive absolute gaps, or one minute when no gap is
/// positive.
pub fn bar_duration_ms(times_ns: &Vec<i128>) -> (r: i64)
    requires
        instants_in_range(times_ns@),
    ensures
        r == typical_bar_ms(times_ns@),
{
    let gaps = positive_gaps(times_ns, true);
    if gaps.len() == 0 {
        return 60_000;
    }
    let sorted = sort_ms(gaps);
    sorted[sorted.len() / 2]
}

/// Median of the positive forward gaps between consecutive bars, or `None`
/// when there is no positive gap (fewer than two bars, or no time advance).
pub fn median_forward_gap(times_ns: &Vec<i128>) -> (r: Option<i64>)
    requires
        instants_in_range(times_ns@),
    ensures
        r == (if forward_gaps(times_ns@).filter(positive_ms()).len() == 0 {
            None
        } else {
            Some(median_ms(forward_gaps(times_ns@).filter(positive_ms())))
        }),
{
    if times_ns.len() < 2 {
        proof {
            reveal(Seq::filter);
        }
        return None;
    }
    let gaps = positive_gaps(times_ns, false);
    if gaps.len() == 0 {
        return None;
    }
    let sorted = sort_ms(gaps);
    Some(sorted[sorted.len() / 2])
}

/// Distance between two millisecond values.
pub open spec fn ms_distance(a: i64, b: i64) -> int {
    if a >= b {
        a - b
    } else {
        b - a
    }
}

/// Position of the first duration closest to `target`, or `None` when there
/// are no durations.
pub fn nearest_duration(durations: &Vec<i64>, target: i64) -> (r: Option<usize>)
    requires
        forall|i: int|
            0 <= i < durations@.len() ==> i64::MIN < #[trigger] durations@[i] - target <= i64::MAX,
    ensures
        r is None <==> durations@.len() == 0,
        r matches Some(k) ==> {
            &&& k < durations@.len()
            &&& forall|j: int|
                0 <= j < durations@.len() ==> ms_distance(durations@[k as int], target)
                    <= ms_distance(#[trigger] durations@[j], target)
            &&& forall|j: int|
                0 <= j < k ==> ms_distance(durations@[k as int], target) < ms_distance(
                    #[trigger] durations@[j],
                    target,
                )
        },
{
    if durations.len() == 0 {
        return None;
    }
    let mut best: usize = 0;
    let d0 = durations[0] - target;
    let mut best_key: i64 = if d0 >= 0 {
        d0
    } else {
        -d0
    };
    let mut i: usize = 1;
    while i < durations.len()
        invariant
            0 <= best < i <= durations@.len(),
            best_key == ms_distance(durations@[best as int], target),
            forall|i: int|
                0 <= i < durations@.len() ==> i64::MIN < #[trigger] durations@[i] - target
                    <= i64::MAX,
            forall|j: int|
                0 <= j < i ==> best_key <= ms_distance(#[trigger] durations@[j], target),
            forall|j: int| 0 <= j < best ==> best_key < ms_distance(#[trigger] durations@[j], target),
        decreases durations@.len() - i,
    {
        let d = durations[i] - target;
        let key: i64 = if d >= 0 {
            d
        } else {
            -d
        };
        if key < best_key {
            best = i;
            best_key = key;
        }
        i = i + 1;
    }
    Some(best)
}

/// The median of the positive values of a sequence, when there are any, is
/// itself positive.
pub proof fn lemma_positive_median(t: Seq<i64>)
    requires
        t.filter(positive_ms()).len() > 0,
    ensures
        median_ms(t.filter(positive_ms())) > 0,
{
    let s = t.filter(positive_ms());
    t.filter_lemma(positive_ms());
    lemma_ms_leq_total();
    s.lemma_sort_by_ensures(ms_leq());
    vstd::seq_lib::to_multiset_len(s);
    vstd::seq_lib::to_multiset_len(sorted_ms(s));
    let k = (s.len() / 2) as int;
    let m = median_ms(s);
    assert(sorted_ms(s)[k] == m);
    assert(sorted_ms(s).contains(m));
    assert(s.contains(m));
    let i = choose|i: int| 0 <= i < s.len() && s[i] == m;
    assert((positive_ms())(s[i]));
}

/// Keeps the values below `m`.
pub open spec fn below(m: i64) -> spec_fn(i64) -> bool {
    |x: i64| x < m
}

/// Keeps the values up to `m`.
pub open spec fn at_most(m: i64) -> spec_fn(i64) -> bool {
    |x: i64| x <= m
}

/// Filtering commutes with forgetting the order.
proof fn lemma_filter_to_multiset(s: Seq<i64>, p: spec_fn(i64) -> bool)
    ensures
        s.filter(p).to_multiset() =~= s.to_multiset().filter(p),
    decreases s.len(),
{
    broadcast use vstd::multiset::group_multiset_axioms;
    broadcast use vstd::seq_lib::group_to_multiset_ensures;

    if s.len() == 0 {
        reveal(Seq::filter);
        assert(s.filter(p) =~= Seq::<i64>::empty());
        assert(s =~= Seq::<i64>::empty());
    } else {
        let r = s.drop_last();
        let x = s.last();
        lemma_filter_to_multiset(r, p);
        assert(s =~= r.push(x));
        r.lemma_filter_push(x, p);
        vstd::seq_lib::to_multiset_build(r, x);
        if p(x) {
            vstd::seq_lib::to_multiset_build(r.filter(p), x);
        }
    }
}

/// Reordering a sequence keeps the number of values a filter keeps.
proof fn lemma_filter_len_permutation(s: Seq<i64>, u: Seq<i64>, p: spec_fn(i64) -> bool)
    requires
        s.to_multiset() =~= u.to_multiset(),
    ensures
        s.filter(p).len() == u.filter(p).len(),
{
    lemma_filter_to_multiset(s, p);
    lemma_filter_to_multiset(u, p);
    vstd::seq_lib::to_multiset_len(s.filter(p));
    vstd::seq_lib::to_multiset_len(u.filter(p));
}

/// A filter that keeps every value keeps the whole sequence.
proof fn lemma_filter_keeps_all(s: Seq<i64>, p: spec_fn(i64) -> bool)
    requires
        forall|i: int| 0 <= i < s.len() ==> p(#[trigger] s[i]),
    ensures
        s.filter(p) == s,
    decreases s.len(),
{
    reveal(Seq::filter);
    if s.len() > 0 {
        let r = s.drop_last();
        assert forall|i: int| 0 <= i < r.len() implies p(#[trigger] r[i]) by {
            assert(r[i] == s[i]);
        }
        lemma_filter_keeps_all(r, p);
        assert(s =~= r.push(s.last()));
        r.lemma_filter_push(s.last(), p);
        assert(p(s[s.len() - 1]));
    }
}

/// The median is one of the values, at most half of the values lie below
/// it, and more than half lie at or below it.
pub proof fn lemma_median_order_statistic(s: Seq<i64>)
    requires
        s.len() > 0,
    ensures
        s.contains(median_ms(s)),
        s.filter(below(median_ms(s))).len() <= s.len() / 2,
        s.filter(at_most(median_ms(s))).len() > s.len() / 2,
{
    lemma_ms_leq_total();
    s.lemma_sort_by_ensures(ms_leq());
    let u = sorted_ms(s);
    vstd::seq_lib::to_multiset_len(s);
    vstd::seq_lib::to_multiset_len(u);
    let k = (s.len() / 2) as int;
    let m = median_ms(s);
    assert(u[k] == m);
    assert(u.contains(m));
    vstd::seq_lib::to_multiset_contains(u, m);
    assert(s.to_multiset().contains(m));
    vstd::seq_lib::to_multiset_contains(s, m);
    // Below the median: only entries before position k of the sorted values.
    lemma_filter_len_permutation(s, u, below(m));
    assert(u =~= u.take(k) + u.skip(k));
    Seq::filter_distributes_over_add(u.take(k), u.skip(k), below(m));
    assert forall|i: int| 0 <= i < u.skip(k).len() implies !(below(m))(#[trigger] u.skip(k)[i]) by {
        assert(u.skip(k)[i] == u[k + i]);
        assert((ms_leq())(u[k], u[k + i]));
    }
    assert(u.skip(k).all(|x: i64| !(below(m))(x)));
    u.skip(k).lemma_all_neg_filter_empty(below(m));
    u.take(k).lemma_filter_len(below(m));
    // At most the median: at least the entries up to position k.
    lemma_filter_len_permutation(s, u, at_most(m));
    assert(u =~= u.take(k + 1) + u.skip(k + 1));
    Seq::filter_distributes_over_add(u.take(k + 1), u.skip(k + 1), at_most(m));
    assert forall|i: int| 0 <= i < u.take(k + 1).len() implies (at_most(m))(#[trigger] u.take(k + 1)[i]) by {
        assert(u.take(k + 1)[i] == u[i]);
        if i < k {
            assert((ms_leq())(u[i], u[k]));
        }
    }
    lemma_filter_keeps_all(u.take(k + 1), at_most(m));
}

/// The typical bar spacing is one minute when no gap between consecutive
/// bars is positive; otherwise it is one of the positive absolute gaps (in
/// whole milliseconds), at most half of them are shorter, and more than half
/// are no longer: the upper median.
pub proof fn lemma_typical_bar_is_median_gap(t: Seq<i128>)
    ensures
        ({
            let g = absolute_gaps(t).filter(positive_ms());
            let r = typical_bar_ms(t);
            &&& g.len() == 0 ==> r == 60_000
            &&& g.len() > 0 ==> {
                &&& g.contains(r)
                &&& r > 0
                &&& g.filter(below(r)).len() <= g.len() / 2
                &&& g.filter(at_most(r)).len() > g.len() / 2
            }
        }),
{
    let g = absolute_gaps(t).filter(positive_ms());
    if g.len() > 0 {
        lemma_median_order_statistic(g);
        lemma_positive_median(absolute_gaps(t));
    }
}

/// The median forward gap, when there is one, is one of the positive
/// forward gaps, at most half of them are shorter, and more than half are
/// no longer.
pub proof fn lemma_forward_median_order_statistic(t: Seq<i128>)
    requires
        forward_gaps(t).filter(positive_ms()).len() > 0,
    ensures
        ({
            let g = forward_gaps(t).filter(positive_ms());
            let r = median_ms(g);
            &&& g.contains(r)
            &&& r > 0
            &&& g.filter(below(r)).len() <= g.len() / 2
            &&& g.filter(at_most(r)).len() > g.len() / 2
        }),
{
    lemma_median_order_statistic(forward_gaps(t).filter(positive_ms()));
    lemma_positive_median(forward_gaps(t));
}

/// The gap between consecutive bars is the time between them in whole
/// milliseconds, truncated toward zero: its magnitude is the largest number
/// of whole milliseconds that fits in the span, and its sign is the span's.
/// The absolute gap is the magnitude of the forward gap.
pub proof fn lemma_gaps_are_truncated_ms(t: Seq<i128>, i: int)
    requires
        instants_in_range(t),
        0 <= i < t.len() - 1,
    ensures
        ({
            let d = t[i + 1] - t[i];
            let g = forward_gaps(t)[i];
            let a = absolute_gaps(t)[i];
            &&& forward_gaps(t).len() == t.len() - 1
            &&& absolute_gaps(t).len() == t.len() - 1
            &&& d >= 0 ==> g >= 0 && g * 1_000_000 <= d < (g + 1) * 1_000_000
            &&& d < 0 ==> g <= 0 && (-g) * 1_000_000 <= -d < (-g + 1) * 1_000_000
            &&& a == (if g >= 0 { g as int } else { -g })
        }),
{
    assert(instant_in_range(t[i]));
    assert(instant_in_range(t[i + 1]));
    let d = t[i + 1] - t[i];
    assert(-20_000_000_000_000_000_000_000 <= d <= 20_000_000_000_000_000_000_000);
    if d >= 0 {
        assert(d / 1_000_000 <= 20_000_000_000_000_000);
    } else {
        assert((-d) / 1_000_000 <= 20_000_000_000_000_000);
    }
}

/// The median of values already in ascending order is the middle value.
pub proof fn lemma_median_of_sorted(s: Seq<i64>)
    requires
        s.len() > 0,
        forall|i: int, j: int| 0 <= i <= j < s.len() ==> s[i] <= s[j],
    ensures
        median_ms(s) == s[(s.len() / 2) as int],
{
    lemma_ms_leq_total();
    s.lemma_sort_by_ensures(ms_leq());
    assert(sorted_by(s, ms_leq()));
    vstd::seq_lib::lemma_sorted_unique(s, s.sort_by(ms_leq()), ms_leq());
}

/// The bar duration used for time marks is always positive.
pub proof fn lemma_bar_duration_positive(times_ns: Seq<i128>)
    ensures
        typical_bar_ms(times_ns) > 0,
{
    if absolute_gaps(times_ns).filter(positive_ms()).len() > 0 {
        lemma_positive_median(absolute_gaps(times_ns));
    }
}

} // verus!
