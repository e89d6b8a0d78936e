//! Piecewise-linear interpolation over a table of breakpoints, clamped at the
//! table's ends.

use vstd::prelude::*;
use crate::arith::div_floor;

verus! {

/// Largest magnitude of a key, value or query handed to `interpolate`.
pub const INTERP_BOUND: i64 = 0x100_0000_0000;

/// The value at `x` on the segment from `(k0, v0)` to `(k1, v1)`, rounded
/// down; a degenerate segment gives `v0`.
pub open spec fn lerp(k0: int, k1: int, v0: int, v1: int, x: int) -> int {
    if k1 <= k0 {
        v0
    } else {
        v0 + (x - k0) * (v1 - v0) / (k1 - k0)
    }
}

/// Searches the segments from index `i` on for the first one whose keys
/// enclose `x`, and interpolates on it; `fallback` when none does.
pub open spec fn pwl_search(keys: Seq<int>, vals: Seq<int>, x: int, i: int, fallback: int) -> int
    decreases keys.len() - i,
{
    if i < 0 || i + 1 >= keys.len() {
        fallback
    } else if keys[i] <= x && x <= keys[i + 1] {
        lerp(keys[i], keys[i + 1], vals[i], vals[i + 1], x)
    } else {
        pwl_search(keys, vals, x, i + 1, fallback)
    }
}

/// Piecewise-linear interpolation of `vals` over `keys` at `x`: the first
/// value at or below the first key, the last value at or above the last key.
pub open spec fn pwl(keys: Seq<int>, vals: Seq<int>, x: int, fallback: int) -> int {
    if x <= keys[0] {
        vals[0]
    } else if x >= keys[keys.len() - 1] {
        vals[vals.len() - 1]
    } else {
        pwl_search(keys, vals, x, 0, fallback)
    }
}

/// Keys strictly ascending.
pub open spec fn ascending(s: Seq<int>) -> bool {
    forall|i: int| 0 <= i < s.len() - 1 ==> #[trigger] s[i] < s[i + 1]
}

/// Values ordered one way: non-decreasing when `up`, else non-increasing.
pub open spec fn monotone(s: Seq<int>, up: bool) -> bool {
    forall|i: int|
        0 <= i < s.len() - 1 ==> if up {
            #[trigger] s[i] <= s[i + 1]
        } else {
            s[i] >= s[i + 1]
        }
}

/// `v` lies between `a` and `b`, whichever of the two is larger.
pub open spec fn between(v: int, a: int, b: int) -> bool {
    (a <= v <= b) || (b <= v <= a)
}

/// The integers of a sequence of `i64`.
pub open spec fn ints(s: Seq<i64>) -> Seq<int> {
    s.map_values(|v: i64| v as int)
}

/// On a proper segment, interpolation is monotone in `x` in the direction of
/// the segment and stays between its end values.
pub proof fn lemma_lerp(k0: int, k1: int, v0: int, v1: int, x: int, y: int)
    requires
        k0 < k1,
        k0 <= x <= y <= k1,
    ensures
        v0 <= v1 ==> v0 <= lerp(k0, k1, v0, v1, x) <= lerp(k0, k1, v0, v1, y) <= v1,
        v0 >= v1 ==> v0 >= lerp(k0, k1, v0, v1, x) >= lerp(k0, k1, v0, v1, y) >= v1,
        lerp(k0, k1, v0, v1, k0) == v0,
        lerp(k0, k1, v0, v1, k1) == v1,
{
    let s = k1 - k0;
    let d = v1 - v0;
    let u = x - k0;
    let w = y - k0;
    vstd::arithmetic::div_mod::lemma_div_multiples_vanish(d, s);
    assert(0int / s == 0) by {
        vstd::arithmetic::div_mod::lemma_div_basics(s);
    }
    assert((k0 - k0) * d == 0);
    assert((k1 - k0) * d == s * d);
    if d >= 0 {
        assert(0 <= u * d <= w * d <= s * d) by (nonlinear_arith)
            requires
                0 <= u <= w <= s,
                d >= 0,
        ;
        vstd::arithmetic::div_mod::lemma_div_is_ordered(0, u * d, s);
        vstd::arithmetic::div_mod::lemma_div_is_ordered(u * d, w * d, s);
        vstd::arithmetic::div_mod::lemma_div_is_ordered(w * d, s * d, s);
    } else {
        assert(0 >= u * d >= w * d >= s * d) by (nonlinear_arith)
            requires
                0 <= u <= w <= s,
                d < 0,
        ;
        vstd::arithmetic::div_mod::lemma_div_is_ordered(u * d, 0, s);
        vstd::arithmetic::div_mod::lemma_div_is_ordered(w * d, u * d, s);
        vstd::arithmetic::div_mod::lemma_div_is_ordered(s * d, w * d, s);
    }
}

/// Every interpolated value is a table value, the fallback, or lies between
/// two adjacent table values; so it stays in any range that holds all of those.
proof fn lemma_pwl_search_in_range(
    keys: Seq<int>,
    vals: Seq<int>,
    x: int,
    i: int,
    fallback: int,
    lo: int,
    hi: int,
)
    requires
        keys.len() == vals.len(),
        forall|j: int| 0 <= j < vals.len() ==> lo <= #[trigger] vals[j] <= hi,
        lo <= fallback <= hi,
    ensures
        lo <= pwl_search(keys, vals, x, i, fallback) <= hi,
    decreases keys.len() - i,
{
    if i < 0 || i + 1 >= keys.len() {
    } else if keys[i] <= x && x <= keys[i + 1] {
        if keys[i + 1] > keys[i] {
            lemma_lerp(keys[i], keys[i + 1], vals[i], vals[i + 1], x, x);
        }
    } else {
        lemma_pwl_search_in_range(keys, vals, x, i + 1, fallback, lo, hi);
    }
}

/// `pwl` stays in any range holding every table value and the fallback.
pub proof fn lemma_pwl_in_range(keys: Seq<int>, vals: Seq<int>, x: int, fallback: int, lo: int, hi: int)
    requires
        keys.len() == vals.len(),
        keys.len() >= 1,
        forall|j: int| 0 <= j < vals.len() ==> lo <= #[trigger] vals[j] <= hi,
        lo <= fallback <= hi,
    ensures
        lo <= pwl(keys, vals, x, fallback) <= hi,
{
    assert(lo <= vals[0] <= hi);
    assert(lo <= vals[vals.len() - 1] <= hi);
    lemma_pwl_search_in_range(keys, vals, x, 0, fallback, lo, hi);
}

/// Interpolation on one segment lies between its end values, whether the
/// segment is proper or degenerate.
proof fn lemma_segment_between(k0: int, k1: int, v0: int, v1: int, x: int)
    requires
        k0 <= x <= k1,
    ensures
        between(lerp(k0, k1, v0, v1, x), v0, v1),
{
    if k0 < k1 {
        lemma_lerp(k0, k1, v0, v1, x, x);
    }
}

/// A search that starts at a segment whose first key is at or below
/// `x <= last key` finds a segment, and the result lies between the
/// segment's first value and the last value. The keys need not be sorted:
/// a query above a segment's first key that the segment misses lies above
/// its second key too.
proof fn lemma_search_between(keys: Seq<int>, vals: Seq<int>, x: int, i: int, fallback: int, up: bool)
    requires
        keys.len() == vals.len(),
        monotone(vals, up),
        0 <= i < keys.len() - 1,
        keys[i] <= x <= keys[keys.len() - 1],
    ensures
        between(pwl_search(keys, vals, x, i, fallback), vals[i], vals[vals.len() - 1]),
    decreases keys.len() - i,
{
    lemma_monotone_span(vals, up, i + 1, vals.len() - 1);
    assert(up ==> vals[i] <= vals[i + 1]);
    assert(!up ==> vals[i] >= vals[i + 1]);
    if keys[i] <= x && x <= keys[i + 1] {
        lemma_segment_between(keys[i], keys[i + 1], vals[i], vals[i + 1], x);
    } else {
        lemma_search_between(keys, vals, x, i + 1, fallback, up);
    }
}

/// Monotone adjacent steps add up to a monotone span.
pub proof fn lemma_monotone_span(vals: Seq<int>, up: bool, i: int, j: int)
    requires
        monotone(vals, up),
        0 <= i <= j < vals.len(),
    ensures
        up ==> vals[i] <= vals[j],
        !up ==> vals[i] >= vals[j],
    decreases j - i,
{
    if i < j {
        lemma_monotone_span(vals, up, i + 1, j);
        assert(up ==> vals[i] <= vals[i + 1]);
        assert(!up ==> vals[i] >= vals[i + 1]);
    }
}

/// Searches that start at the same segment keep the order of their queries,
/// in the direction of the values.
proof fn lemma_search_monotone(keys: Seq<int>, vals: Seq<int>, x: int, y: int, i: int, fallback: int, up: bool)
    requires
        keys.len() == vals.len(),
        monotone(vals, up),
        0 <= i < keys.len() - 1,
        keys[i] <= x <= y <= keys[keys.len() - 1],
    ensures
        up ==> pwl_search(keys, vals, x, i, fallback) <= pwl_search(keys, vals, y, i, fallback),
        !up ==> pwl_search(keys, vals, x, i, fallback) >= pwl_search(keys, vals, y, i, fallback),
    decreases keys.len() - i,
{
    assert(up ==> vals[i] <= vals[i + 1]);
    assert(!up ==> vals[i] >= vals[i + 1]);
    if x <= keys[i + 1] {
        lemma_segment_between(keys[i], keys[i + 1], vals[i], vals[i + 1], x);
        if y <= keys[i + 1] {
            if keys[i] < keys[i + 1] {
                lemma_lerp(keys[i], keys[i + 1], vals[i], vals[i + 1], x, y);
            }
        } else {
            lemma_search_between(keys, vals, y, i + 1, fallback, up);
            lemma_monotone_span(vals, up, i + 1, vals.len() - 1);
        }
    } else {
        lemma_search_monotone(keys, vals, x, y, i + 1, fallback, up);
    }
}

/// With monotone values, `pwl` is monotone in the direction of the values
/// and never leaves the range of the end values, whatever the order of the
/// keys.
pub proof fn lemma_pwl_monotone(keys: Seq<int>, vals: Seq<int>, x: int, y: int, fallback: int, up: bool)
    requires
        keys.len() == vals.len(),
        keys.len() >= 1,
        monotone(vals, up),
        x <= y,
    ensures
        up ==> pwl(keys, vals, x, fallback) <= pwl(keys, vals, y, fallback),
        !up ==> pwl(keys, vals, x, fallback) >= pwl(keys, vals, y, fallback),
        between(pwl(keys, vals, x, fallback), vals[0], vals[vals.len() - 1]),
{
    let n = keys.len();
    lemma_monotone_span(vals, up, 0, n - 1);
    if n >= 2 {
        if keys[0] < x && x < keys[n - 1] {
            lemma_search_between(keys, vals, x, 0, fallback, up);
        }
        if keys[0] < y && y < keys[n - 1] {
            lemma_search_between(keys, vals, y, 0, fallback, up);
        }
        if keys[0] < x && y < keys[n - 1] {
            lemma_search_monotone(keys, vals, x, y, 0, fallback, up);
        }
    }
}

/// Interpolates on one segment, rounding down.
fn lerp_exec(k0: i64, k1: i64, v0: i64, v1: i64, x: i64) -> (r: i64)
    requires
        -INTERP_BOUND <= k0 <= INTERP_BOUND,
        -INTERP_BOUND <= k1 <= INTERP_BOUND,
        -INTERP_BOUND <= v0 <= INTERP_BOUND,
        -INTERP_BOUND <= v1 <= INTERP_BOUND,
        k0 <= x <= k1,
    ensures
        r == lerp(k0 as int, k1 as int, v0 as int, v1 as int, x as int),
        between(r as int, v0 as int, v1 as int),
{
    if k1 <= k0 {
        return v0;
    }
    proof {
        lemma_lerp(k0 as int, k1 as int, v0 as int, v1 as int, x as int, x as int);
        assert(-0x200_0000_0000_0000_0000_0000int <= (x - k0) * (v1 - v0) <= 0x200_0000_0000_0000_0000_0000int)
            by (nonlinear_arith)
            requires
                0 <= x - k0 <= 2 * INTERP_BOUND,
                -2 * INTERP_BOUND <= v1 - v0 <= 2 * INTERP_BOUND,
        ;
    }
    let num: i128 = (x as i128 - k0 as i128) * (v1 as i128 - v0 as i128);
    let q = div_floor(num, k1 as i128 - k0 as i128);
    (v0 as i128 + q) as i64
}

/// Interpolates `vals` over the first `n` entries of `keys` at `x`.
pub fn interpolate(keys: &[i64; 5], vals: &[i64; 5], n: usize, x: i64, fallback: i64) -> (r: i64)
    requires
        1 <= n <= 5,
        forall|j: int| 0 <= j < 5 ==> -INTERP_BOUND <= #[trigger] keys@[j] <= INTERP_BOUND,
        forall|j: int| 0 <= j < 5 ==> -INTERP_BOUND <= #[trigger] vals@[j] <= INTERP_BOUND,
    ensures
        r == pwl(ints(keys@.take(n as int)), ints(vals@.take(n as int)), x as int, fallback as int),
{
    let ghost ks = ints(keys@.take(n as int));
    let ghost vs = ints(vals@.take(n as int));
    assert(ks.len() == n && vs.len() == n);
    assert(forall|j: int| 0 <= j < n ==> ks[j] == keys@[j] && vs[j] == vals@[j]);
    if x <= keys[0] {
        return vals[0];
    }
    if x >= keys[n - 1] {
        return vals[n - 1];
    }
    let mut i: usize = 0;
    while i + 1 < n
        invariant
            1 <= n <= 5,
            i < n,
            keys[0] < x < keys[n - 1],
            ks == ints(keys@.take(n as int)),
            vs == ints(vals@.take(n as int)),
            ks.len() == n && vs.len() == n,
            forall|j: int| 0 <= j < n ==> ks[j] == keys@[j] && vs[j] == vals@[j],
            forall|j: int| 0 <= j < 5 ==> -INTERP_BOUND <= #[trigger] keys@[j] <= INTERP_BOUND,
            forall|j: int| 0 <= j < 5 ==> -INTERP_BOUND <= #[trigger] vals@[j] <= INTERP_BOUND,
            pwl(ks, vs, x as int, fallback as int) == pwl_search(ks, vs, x as int, i as int, fallback as int),
        decreases n - i,
    {
        if keys[i] <= x && x <= keys[i + 1] {
            return lerp_exec(keys[i], keys[i + 1], vals[i], vals[i + 1], x);
        }
        i = i + 1;
    }
    fallback
}

} // verus!
