//! Exact integer statistics over timestamps: the temporal consistency factor.
//!
//! The consistency of a set of source timestamps is `1 - min(sd / 300 s, 1)`,
//! where `sd` is the population standard deviation of their epoch seconds.
//! In ten-thousandths, the normalized deviation `k` is `floor(10000 * sd / 300)`
//! capped at 10000, which over integers reads
//! `9 n^2 k^2 <= 10000 V < 9 n^2 (k + 1)^2` with `V = n * sum(x^2) - sum(x)^2`
//! (`n^2` times the variance). Everything below is computed without rounding
//! error and without overflow, for any number of timestamps.
use vstd::prelude::*;
use crate::time::UtcInstant;

verus! {

/// The sum of a sequence of integers.
pub open spec fn sum_of(xs: Seq<int>) -> int
    decreases xs.len(),
{
    if xs.len() == 0 {
        0
    } else {
        sum_of(xs.drop_last()) + xs.last()
    }
}

/// The sum of the squares of a sequence of integers.
pub open spec fn sum_of_squares(xs: Seq<int>) -> int
    decreases xs.len(),
{
    if xs.len() == 0 {
        0
    } else {
        sum_of_squares(xs.drop_last()) + xs.last() * xs.last()
    }
}

/// `n^2` times the population variance: `n * sum(x^2) - sum(x)^2`.
pub open spec fn scaled_variance(xs: Seq<int>) -> int {
    xs.len() * sum_of_squares(xs) - sum_of(xs) * sum_of(xs)
}

/// Every element moved by `-c`.
pub open spec fn shifted(xs: Seq<int>, c: int) -> Seq<int> {
    Seq::new(xs.len(), |i: int| xs[i] - c)
}

/// The epoch seconds of a sequence of instants.
pub open spec fn secs_of(ts: Seq<UtcInstant>) -> Seq<int> {
    Seq::new(ts.len(), |i: int| ts[i].secs as int)
}

/// `k` is the standard deviation of `xs`, normalized by 300 seconds, in
/// ten-thousandths, rounded down and capped at 10000.
pub open spec fn is_normalized_deviation(xs: Seq<int>, k: int) -> bool {
    let n = xs.len() as int;
    let v = scaled_variance(xs);
    &&& 0 <= k <= 10000
    &&& 9 * (n * n) * (k * k) <= 10000 * v
    &&& (k == 10000 || 10000 * v < 9 * (n * n) * ((k + 1) * (k + 1)))
}

/// The normalized standard deviation of `xs` in ten-thousandths (see
/// `is_normalized_deviation`; there is exactly one such value).
pub open spec fn normalized_deviation(xs: Seq<int>) -> int {
    choose|k: int| is_normalized_deviation(xs, k)
}

/// Temporal consistency in ten-thousandths: 0.5 when fewer than two
/// timestamps are given, otherwise `1 - min(sd / 300 s, 1)`.
pub open spec fn consistency_of(xs: Seq<int>) -> u32 {
    if xs.len() < 2 {
        5000
    } else {
        (10000 - normalized_deviation(xs)) as u32
    }
}

/// There is at most one normalized deviation.
pub proof fn lemma_normalized_deviation_unique(xs: Seq<int>, k1: int, k2: int)
    requires
        is_normalized_deviation(xs, k1),
        is_normalized_deviation(xs, k2),
    ensures
        k1 == k2,
{
    let n = xs.len() as int;
    let v = scaled_variance(xs);
    let nn = n * n;
    if k1 < k2 {
        assert((k1 + 1) * (k1 + 1) <= k2 * k2) by (nonlinear_arith)
            requires
                0 <= k1 < k2,
        ;
        assert(9 * nn * ((k1 + 1) * (k1 + 1)) <= 9 * nn * (k2 * k2)) by (nonlinear_arith)
            requires
                (k1 + 1) * (k1 + 1) <= k2 * k2,
                nn >= 0,
        ;
    } else if k2 < k1 {
        assert((k2 + 1) * (k2 + 1) <= k1 * k1) by (nonlinear_arith)
            requires
                0 <= k2 < k1,
        ;
        assert(9 * nn * ((k2 + 1) * (k2 + 1)) <= 9 * nn * (k1 * k1)) by (nonlinear_arith)
            requires
                (k2 + 1) * (k2 + 1) <= k1 * k1,
                nn >= 0,
        ;
    }
}

proof fn lemma_shifted_drop_last(xs: Seq<int>, c: int)
    requires
        xs.len() > 0,
    ensures
        shifted(xs, c).drop_last() == shifted(xs.drop_last(), c),
        shifted(xs, c).last() == xs.last() - c,
{
    assert(shifted(xs, c).drop_last() =~= shifted(xs.drop_last(), c));
}

/// Moving every element by `-c` moves the sum by `-n c` and the sum of
/// squares by `-2 c sum + n c^2`.
pub proof fn lemma_sums_shifted(xs: Seq<int>, c: int)
    ensures
        sum_of(shifted(xs, c)) == sum_of(xs) - xs.len() * c,
        sum_of_squares(shifted(xs, c)) == sum_of_squares(xs) - 2 * c * sum_of(xs) + xs.len() * (
        c * c),
    decreases xs.len(),
{
    if xs.len() > 0 {
        let init = xs.drop_last();
        let x = xs.last();
        lemma_shifted_drop_last(xs, c);
        lemma_sums_shifted(init, c);
        let n0 = init.len() as int;
        let s1 = sum_of(init);
        let s2 = sum_of_squares(init);
        assert(sum_of(shifted(xs, c)) == (s1 - n0 * c) + (x - c));
        assert((s1 - n0 * c) + (x - c) == (s1 + x) - (n0 + 1) * c) by (nonlinear_arith);
        assert(sum_of_squares(shifted(xs, c)) == (s2 - 2 * c * s1 + n0 * (c * c)) + (x - c) * (x
            - c));
        assert((s2 - 2 * c * s1 + n0 * (c * c)) + (x - c) * (x - c) == (s2 + x * x) - 2 * c * (s1
            + x) + (n0 + 1) * (c * c)) by (nonlinear_arith);
    }
}

/// The variance does not change when every element is moved by the same amount.
pub proof fn lemma_scaled_variance_shift_invariant(xs: Seq<int>, c: int)
    ensures
        scaled_variance(shifted(xs, c)) == scaled_variance(xs),
{
    lemma_sums_shifted(xs, c);
    let n = xs.len() as int;
    let s1 = sum_of(xs);
    let s2 = sum_of_squares(xs);
    assert(n * (s2 - 2 * c * s1 + n * (c * c)) - (s1 - n * c) * (s1 - n * c) == n * s2 - s1 * s1)
        by (nonlinear_arith);
}

proof fn lemma_take_step(xs: Seq<int>, k: int)
    requires
        0 <= k < xs.len(),
    ensures
        sum_of(xs.take(k + 1)) == sum_of(xs.take(k)) + xs[k],
        sum_of_squares(xs.take(k + 1)) == sum_of_squares(xs.take(k)) + xs[k] * xs[k],
{
    assert(xs.take(k + 1).drop_last() =~= xs.take(k));
}

proof fn lemma_squares_prefix(xs: Seq<int>, k: int)
    requires
        0 <= k <= xs.len(),
    ensures
        0 <= sum_of_squares(xs.take(k)) <= sum_of_squares(xs),
    decreases xs.len() - k,
{
    if k == xs.len() {
        assert(xs.take(k) =~= xs);
        lemma_squares_nonneg(xs);
    } else {
        lemma_take_step(xs, k);
        assert(xs[k] * xs[k] >= 0) by (nonlinear_arith);
        lemma_squares_prefix(xs, k + 1);
        lemma_squares_nonneg(xs.take(k));
    }
}

proof fn lemma_squares_nonneg(xs: Seq<int>)
    ensures
        sum_of_squares(xs) >= 0,
    decreases xs.len(),
{
    if xs.len() > 0 {
        lemma_squares_nonneg(xs.drop_last());
        assert(xs.last() * xs.last() >= 0) by (nonlinear_arith);
    }
}

/// The smallest epoch second among the instants.
fn min_secs(ts: &Vec<UtcInstant>) -> (m: i64)
    requires
        ts@.len() > 0,
    ensures
        forall|i: int| 0 <= i < ts@.len() ==> m <= #[trigger] ts@[i].secs,
{
    let mut m = ts[0].secs;
    for i in 1..ts.len()
        invariant
            forall|j: int| 0 <= j < i ==> m <= #[trigger] ts@[j].secs,
    {
        if ts[i].secs < m {
            m = ts[i].secs;
        }
    }
    m
}

/// Splits the sum of `secs - base` into `q * n + r` with `0 <= r < n`.
fn split_sum(ts: &Vec<UtcInstant>, base: i64) -> (res: (u128, u128))
    requires
        ts@.len() > 0,
        forall|i: int| 0 <= i < ts@.len() ==> base <= #[trigger] ts@[i].secs,
    ensures
        res.0 * ts@.len() + res.1 == sum_of(shifted(secs_of(ts@), base as int)),
        res.1 < ts@.len(),
        res.0 < 0x1_0000_0000_0000_0000,
{
    let n = ts.len();
    let nn = n as u128;
    let ghost ds = shifted(secs_of(ts@), base as int);
    let mut q: u128 = 0;
    let mut r: u128 = 0;
    assert(ds.take(0) =~= Seq::<int>::empty());
    for k in 0..n
        invariant
            n == ts@.len(),
            nn == n,
            ds == shifted(secs_of(ts@), base as int),
            forall|i: int| 0 <= i < ts@.len() ==> base <= #[trigger] ts@[i].secs,
            q * nn + r == sum_of(ds.take(k as int)),
            r < nn,
            q * nn + r <= k * 0xFFFF_FFFF_FFFF_FFFFu128,
    {
        let d: u128 = (ts[k].secs as i128 - base as i128) as u128;
        assert(d == ds[k as int]);
        proof {
            lemma_take_step(ds, k as int);
        }
        let dq = d / nn;
        let dr = d % nn;
        assert(dq * nn + dr == d) by (nonlinear_arith)
            requires
                dq == d / nn,
                dr == d % nn,
                nn > 0,
        ;
        assert(q * nn <= k * 0xFFFF_FFFF_FFFF_FFFFu128);
        assert(dq * nn <= d);
        assert((q + dq) * nn <= (k + 1) * 0xFFFF_FFFF_FFFF_FFFFu128) by (nonlinear_arith)
            requires
                q * nn <= k * 0xFFFF_FFFF_FFFF_FFFFu128,
                dq * nn <= d,
                d <= 0xFFFF_FFFF_FFFF_FFFFu128,
        ;
        assert(q + dq <= (k + 1) * 0xFFFF_FFFF_FFFF_FFFFu128) by (nonlinear_arith)
            requires
                (q + dq) * nn <= (k + 1) * 0xFFFF_FFFF_FFFF_FFFFu128,
                nn >= 1,
        ;
        assert((k + 1) * 0xFFFF_FFFF_FFFF_FFFFu128 <= 0xFFFF_FFFF_FFFF_FFFFu128 * 0xFFFF_FFFF_FFFF_FFFFu128) by (nonlinear_arith)
            requires
                k + 1 <= 0xFFFF_FFFF_FFFF_FFFFu128,
        ;
        q = q + dq;
        r = r + dr;
        if r >= nn {
            r = r - nn;
            q = q + 1;
        }
        assert(q * nn + r == sum_of(ds.take(k as int)) + d) by (nonlinear_arith)
            requires
                (q - dq) * nn + (r - dr) == sum_of(ds.take(k as int)) || (q - dq - 1) * nn + (r
                    - dr + nn) == sum_of(ds.take(k as int)),
                dq * nn + dr == d,
        ;
    }
    assert(ds.take(n as int) =~= ds);
    assert(q < 0x1_0000_0000_0000_0000) by (nonlinear_arith)
        requires
            q * nn + r <= nn * 0xFFFF_FFFF_FFFF_FFFFu128,
            nn >= 1,
    ;
    (q, r)
}

/// `n * sum(x^2) - sum(x)^2` is never negative.
pub proof fn lemma_scaled_variance_nonneg(xs: Seq<int>)
    ensures
        scaled_variance(xs) >= 0,
    decreases xs.len(),
{
    if xs.len() > 0 {
        let init = xs.drop_last();
        let y = xs.last();
        lemma_scaled_variance_nonneg(init);
        lemma_sums_shifted(init, y);
        lemma_squares_nonneg(shifted(init, y));
        let n = init.len() as int;
        let s1 = sum_of(init);
        let s2 = sum_of_squares(init);
        assert((n + 1) * (s2 + y * y) - (s1 + y) * (s1 + y) == (n * s2 - s1 * s1) + (s2 - 2 * y
            * s1 + n * (y * y))) by (nonlinear_arith);
    }
}

proof fn lemma_square_within_total(xs: Seq<int>, k: int)
    requires
        0 <= k < xs.len(),
    ensures
        xs[k] * xs[k] <= sum_of_squares(xs),
{
    lemma_take_step(xs, k);
    lemma_squares_nonneg(xs.take(k));
    lemma_squares_prefix(xs, k + 1);
}

/// Sums the squares of `secs - centre`, giving up (with `None`) as soon as
/// the total is known to reach `90001 * n`.
fn centred_square_sum(ts: &Vec<UtcInstant>, centre: i128) -> (res: Option<u128>)
    requires
        ts@.len() > 0,
        forall|i: int|
            0 <= i < ts@.len() ==> -0x1_0000_0000_0000_0000 < #[trigger] ts@[i].secs - centre
                < 0x1_0000_0000_0000_0000,
    ensures
        match res {
            Some(a) => a == sum_of_squares(shifted(secs_of(ts@), centre as int)) && a < 90001
                * ts@.len(),
            None => sum_of_squares(shifted(secs_of(ts@), centre as int)) >= 90001 * ts@.len(),
        },
{
    let n = ts.len();
    let limit: u128 = 90001 * (n as u128);
    let ghost es = shifted(secs_of(ts@), centre as int);
    let mut a: u128 = 0;
    assert(es.take(0) =~= Seq::<int>::empty());
    for k in 0..n
        invariant
            n == ts@.len(),
            limit == 90001 * n,
            es == shifted(secs_of(ts@), centre as int),
            forall|i: int|
                0 <= i < ts@.len() ==> -0x1_0000_0000_0000_0000 < #[trigger] ts@[i].secs - centre
                    < 0x1_0000_0000_0000_0000,
            a == sum_of_squares(es.take(k as int)),
            a < limit,
    {
        let e: i128 = ts[k].secs as i128 - centre;
        assert(e == es[k as int]);
        let mag: u128 = if e < 0 {
            (-e) as u128
        } else {
            e as u128
        };
        assert(mag * mag == e * e) by (nonlinear_arith)
            requires
                mag == e || mag == -e,
        ;
        if mag >= 0x200_0000_0000 {
            proof {
                lemma_square_within_total(es, k as int);
                assert(mag * mag >= 0x200_0000_0000 * 0x200_0000_0000) by (nonlinear_arith)
                    requires
                        mag >= 0x200_0000_0000,
                ;
            }
            return None;
        }
        assert(mag * mag < 0x200_0000_0000 * 0x200_0000_0000) by (nonlinear_arith)
            requires
                mag < 0x200_0000_0000,
        ;
        proof {
            lemma_take_step(es, k as int);
        }
        a = a + mag * mag;
        if a >= limit {
            proof {
                lemma_squares_prefix(es, k + 1);
            }
            return None;
        }
    }
    assert(es.take(n as int) =~= es);
    Some(a)
}

/// Floor division by a positive divisor.
fn floor_div(x: i128, d: i128) -> (q: i128)
    requires
        d > 0,
        -0x1_0000_0000_0000_0000_0000_0000 < x < 0x1_0000_0000_0000_0000_0000_0000,
        d < 0x1_0000_0000_0000_0000_0000_0000,
    ensures
        q * d <= x < q * d + d,
{
    if x >= 0 {
        let q = x / d;
        assert(q * d <= x < q * d + d) by (nonlinear_arith)
            requires
                q == x / d,
                x >= 0,
                d > 0,
        ;
        q
    } else {
        let m = (-x + d - 1) / d;
        assert(m * d <= -x + d - 1 < m * d + d) by (nonlinear_arith)
            requires
                m == (-x + d - 1) as int / d as int,
                -x + d - 1 >= 0,
                d > 0,
        ;
        assert((-m) * d <= x < (-m) * d + d) by (nonlinear_arith)
            requires
                m * d <= -x + d - 1 < m * d + d,
        ;
        -m
    }
}

/// The largest `g` with `9 n^2 g <= 10000 (n a - r^2)`, for the small
/// variances (`a < 90001 n`) that are not capped.
fn scaled_variance_quotient(n: u128, a: u128, r: u128) -> (g: u128)
    requires
        1 <= n < 0x1_0000_0000_0000_0000,
        a < 90001 * n,
        r < n,
        n * a >= r * r,
    ensures
        9 * (n * n) * g <= 10000 * (n * a - r * r) < 9 * (n * n) * (g + 1),
{
    let aq = a / n;
    let ar = a % n;
    assert(aq * n + ar == a && ar < n && aq < 90001) by (nonlinear_arith)
        requires
            aq == a / n,
            ar == a % n,
            n > 0,
            a < 90001 * n,
    ;
    assert(r * r < n * n) by (nonlinear_arith)
        requires
            r < n,
    ;
    assert(n * n <= 0xFFFF_FFFF_FFFF_FFFF * 0xFFFF_FFFF_FFFF_FFFF) by (nonlinear_arith)
        requires
            n <= 0xFFFF_FFFF_FFFF_FFFF,
    ;
    let rr = r * r;
    let u = rr / n;
    let v = rr % n;
    assert(u * n + v == rr && v < n && u < n) by (nonlinear_arith)
        requires
            u == rr / n,
            v == rr % n,
            n > 0,
            rr < n * n,
    ;
    let wv = 10000 * v;
    let w = wv / n;
    let rem = wv % n;
    assert(w * n + rem == wv && rem < n && w <= wv) by (nonlinear_arith)
        requires
            w == wv / n,
            rem == wv % n,
            n > 0,
    ;
    let k: i128 = 10000 * (ar as i128 - u as i128) - w as i128;
    let kk: i128 = if rem == 0 {
        k
    } else {
        k - 1
    };
    let f = floor_div(kk, n as i128);
    assert(-0x1_0000_0000_0000_0000_0000_0000 < f < 0x1_0000_0000_0000_0000_0000_0000) by (nonlinear_arith)
        requires
            f * n <= kk < f * n + n,
            n >= 1,
            -0x1_0000_0000_0000_0000_0000 < kk < 0x1_0000_0000_0000_0000_0000,
    ;
    let big_f: i128 = 10000 * (aq as i128) + f;
    // 10000 V = big_f n^2 + (kk - f n) n + s, with 0 <= (kk - f n) n + s < n^2.
    let ghost vv: int = n * a - r * r;
    let ghost s: int = if rem == 0 {
        0
    } else {
        n - rem
    };
    assert(10000 * vv == 10000 * aq * (n * n) + kk * n + s) by (nonlinear_arith)
        requires
            vv == n * a - r * r,
            a == aq * n + ar,
            r * r == u * n + v,
            10000 * v == w * n + rem,
            k == 10000 * (ar - u) - w,
            kk == (if rem == 0 {
                k as int
            } else {
                k - 1
            }),
            s == (if rem == 0 {
                0
            } else {
                n - rem
            }),
    ;
    assert(big_f * (n * n) <= 10000 * vv < (big_f + 1) * (n * n)) by (nonlinear_arith)
        requires
            10000 * vv == 10000 * aq * (n * n) + kk * n + s,
            big_f == 10000 * aq + f,
            f * n <= kk < f * n + n,
            0 <= s < n,
            s == 0 || rem > 0,
            n >= 1,
    ;
    assert(big_f >= 0) by (nonlinear_arith)
        requires
            10000 * vv < (big_f + 1) * (n * n),
            vv >= 0,
            n >= 1,
    ;
    let g = (big_f / 9) as u128;
    assert(9 * (n * n) * g <= 10000 * vv < 9 * (n * n) * (g + 1)) by (nonlinear_arith)
        requires
            g == big_f / 9,
            big_f >= 0,
            big_f * (n * n) <= 10000 * vv < (big_f + 1) * (n * n),
            n >= 1,
    ;
    g
}

/// The integer square root of `g`, capped at 10000.
fn capped_sqrt(g: u128) -> (k: u128)
    ensures
        k <= 10000,
        k * k <= g,
        k == 10000 || g < (k + 1) * (k + 1),
{
    if g >= 100_000_000 {
        return 10000;
    }
    let mut k: u128 = 0;
    loop
        invariant
            g < 100_000_000,
            k * k <= g,
            k < 10000,
        ensures
            k * k <= g < (k + 1) * (k + 1),
            k < 10000,
        decreases g - k * k,
    {
        let next = k + 1;
        assert(next * next <= 100_000_000) by (nonlinear_arith)
            requires
                next <= 10000,
        ;
        if next * next > g {
            break;
        }
        assert(next < 10000) by (nonlinear_arith)
            requires
                next * next <= g,
                g < 100_000_000,
        ;
        assert(next * next > k * k) by (nonlinear_arith)
            requires
                next == k + 1,
        ;
        k = next;
    }
    k
}

proof fn lemma_shifted_twice(xs: Seq<int>, a: int, b: int)
    ensures
        shifted(shifted(xs, a), b) == shifted(xs, a + b),
{
    assert(shifted(shifted(xs, a), b) =~= shifted(xs, a + b));
}

/// Temporal consistency of the source timestamps, in ten-thousandths: how
/// well the timestamps agree across sources.
///
/// Fewer than two timestamps give 5000 (0.5: consistency cannot be
/// assessed); otherwise the result is `1 - min(sd / 300 s, 1)` with `sd` the
/// standard deviation of the epoch seconds, in ten-thousandths, the
/// normalized deviation rounded down.
pub fn temporal_consistency(timestamps: &Vec<UtcInstant>) -> (c: u32)
    ensures
        c == consistency_of(secs_of(timestamps@)),
        c <= 10000,
{
    let n = timestamps.len();
    if n < 2 {
        return 5000;
    }
    let ghost xs = secs_of(timestamps@);
    let base = min_secs(timestamps);
    let (q, r) = split_sum(timestamps, base);
    let centre: i128 = base as i128 + q as i128;
    let ghost es = shifted(xs, centre as int);
    proof {
        lemma_shifted_twice(xs, base as int, q as int);
        lemma_sums_shifted(shifted(xs, base as int), q as int);
        lemma_scaled_variance_shift_invariant(xs, centre as int);
        lemma_scaled_variance_nonneg(es);
        assert forall|i: int| 0 <= i < timestamps@.len() implies -0x1_0000_0000_0000_0000
            < #[trigger] timestamps@[i].secs - centre < 0x1_0000_0000_0000_0000 by {
            assert(base <= timestamps@[i].secs);
        }
    }
    assert(sum_of(es) == r);
    let nn = n as u128;
    let k: u128 = match centred_square_sum(timestamps, centre) {
        None => {
            assert(10000 * scaled_variance(xs) >= 9 * (nn * nn) * (10000 * 10000)) by (nonlinear_arith)
                requires
                    scaled_variance(xs) == nn * sum_of_squares(es) - r * r,
                    sum_of_squares(es) >= 90001 * nn,
                    r < nn,
            ;
            10000
        },
        Some(a) => {
            assert(nn * a >= r * r);
            let g = scaled_variance_quotient(nn, a, r);
            let k = capped_sqrt(g);
            assert(9 * (nn * nn) * (k * k) <= 10000 * scaled_variance(xs)) by (nonlinear_arith)
                requires
                    k * k <= g,
                    9 * (nn * nn) * g <= 10000 * scaled_variance(xs),
            ;
            assert(k == 10000 || 10000 * scaled_variance(xs) < 9 * (nn * nn) * ((k + 1) * (k
                + 1))) by (nonlinear_arith)
                requires
                    k == 10000 || g < (k + 1) * (k + 1),
                    10000 * scaled_variance(xs) < 9 * (nn * nn) * (g + 1),
            ;
            k
        },
    };
    assert(is_normalized_deviation(xs, k as int));
    proof {
        lemma_normalized_deviation_unique(xs, k as int, normalized_deviation(xs));
    }
    (10000 - k) as u32
}

proof fn lemma_search_deviation(xs: Seq<int>, k: int)
    requires
        xs.len() >= 1,
        0 <= k <= 10000,
        k == 10000 || 10000 * scaled_variance(xs) < 9 * (xs.len() * xs.len()) * ((k + 1) * (k
            + 1)),
    ensures
        exists|j: int| is_normalized_deviation(xs, j),
    decreases k,
{
    let n = xs.len() as int;
    let v = scaled_variance(xs);
    lemma_scaled_variance_nonneg(xs);
    if 9 * (n * n) * (k * k) <= 10000 * v {
        assert(is_normalized_deviation(xs, k));
    } else {
        if k == 0 {
            assert(9 * (n * n) * (k * k) == 0) by (nonlinear_arith)
                requires
                    k == 0,
            ;
        } else {
            lemma_search_deviation(xs, k - 1);
        }
    }
}

/// Every sequence of at least one value has a normalized deviation.
pub proof fn lemma_normalized_deviation_exists(xs: Seq<int>)
    ensures
        xs.len() >= 1 ==> is_normalized_deviation(xs, normalized_deviation(xs)),
        xs.len() >= 1 ==> 0 <= normalized_deviation(xs) <= 10000,
        consistency_of(xs) <= 10000,
{
    if xs.len() >= 1 {
        lemma_search_deviation(xs, 10000);
    }
}

/// Moving every timestamp by the same amount leaves the consistency unchanged.
pub proof fn lemma_consistency_shift_invariant(xs: Seq<int>, c: int)
    ensures
        consistency_of(shifted(xs, c)) == consistency_of(xs),
{
    if xs.len() >= 2 {
        let ys = shifted(xs, c);
        lemma_scaled_variance_shift_invariant(xs, c);
        lemma_normalized_deviation_exists(xs);
        lemma_normalized_deviation_exists(ys);
        assert(is_normalized_deviation(xs, normalized_deviation(ys)));
        lemma_normalized_deviation_unique(xs, normalized_deviation(xs), normalized_deviation(ys));
    }
}

/// Timestamps that all agree exactly are fully consistent (1.0).
pub proof fn lemma_identical_timestamps_fully_consistent(xs: Seq<int>)
    requires
        xs.len() >= 2,
        forall|i: int| 0 <= i < xs.len() ==> #[trigger] xs[i] == xs[0],
    ensures
        consistency_of(xs) == 10000,
{
    let x = xs[0];
    lemma_sums_shifted(xs, x);
    assert(shifted(xs, x) =~= Seq::new(xs.len(), |i: int| 0int));
    lemma_zero_sums(xs.len());
    lemma_scaled_variance_shift_invariant(xs, x);
    assert(scaled_variance(xs) == 0) by {
        assert(scaled_variance(shifted(xs, x)) == 0);
    }
    let n = xs.len() as int;
    assert(9 * (n * n) * (0int * 0int) == 0 && 9 * (n * n) * ((0int + 1) * (0int + 1)) > 0) by (nonlinear_arith)
        requires
            n >= 2,
    ;
    assert(is_normalized_deviation(xs, 0));
    lemma_normalized_deviation_exists(xs);
    lemma_normalized_deviation_unique(xs, 0, normalized_deviation(xs));
}

proof fn lemma_zero_sums(n: nat)
    ensures
        sum_of(Seq::new(n, |i: int| 0int)) == 0,
        sum_of_squares(Seq::new(n, |i: int| 0int)) == 0,
    decreases n,
{
    if n > 0 {
        let zs = Seq::new(n, |i: int| 0int);
        assert(zs.drop_last() =~= Seq::new((n - 1) as nat, |i: int| 0int));
        lemma_zero_sums((n - 1) as nat);
        assert(zs.last() == 0);
        assert(zs.last() * zs.last() == 0) by (nonlinear_arith)
            requires
                zs.last() == 0,
        ;
    }
}

/// Two timestamps `d` seconds apart have a standard deviation of `d / 2`,
/// so their consistency is `1 - min(d / 600 s, 1)`, the deviation in
/// ten-thousandths rounded down: 0.5 at five minutes apart, 0 from ten.
pub proof fn lemma_consistency_of_two(a: int, b: int)
    requires
        a <= b,
    ensures
        consistency_of(seq![a, b]) == 10000 - (if 50 * (b - a) / 3 >= 10000 {
            10000
        } else {
            50 * (b - a) / 3
        }),
{
    let xs = seq![a, b];
    let d = b - a;
    assert(xs.drop_last() =~= seq![a]);
    assert(seq![a].drop_last() =~= Seq::<int>::empty());
    assert(sum_of(Seq::<int>::empty()) == 0);
    assert(sum_of_squares(Seq::<int>::empty()) == 0);
    assert(seq![a].last() == a);
    assert(sum_of(seq![a]) == a);
    assert(sum_of(xs) == a + b);
    assert(sum_of_squares(seq![a]) == a * a);
    assert(sum_of_squares(xs) == a * a + b * b);
    assert(scaled_variance(xs) == d * d) by (nonlinear_arith)
        requires
            scaled_variance(xs) == 2 * (a * a + b * b) - (a + b) * (a + b),
            d == b - a,
    ;
    let k = if 50 * d / 3 >= 10000 {
        10000
    } else {
        50 * d / 3
    };
    assert(9 * (2 * 2) * (k * k) <= 10000 * (d * d)) by (nonlinear_arith)
        requires
            0 <= k,
            3 * k <= 50 * d,
    ;
    if k < 10000 {
        assert(10000 * (d * d) < 9 * (2 * 2) * ((k + 1) * (k + 1))) by (nonlinear_arith)
            requires
                0 <= d,
                50 * d < 3 * (k + 1),
        ;
    }
    assert(is_normalized_deviation(xs, k));
    lemma_normalized_deviation_exists(xs);
    lemma_normalized_deviation_unique(xs, k, normalized_deviation(xs));
}

/// With fewer than two timestamps there is nothing to compare: the
/// consistency is 0.5.
pub proof fn lemma_consistency_of_too_few(xs: Seq<int>)
    requires
        xs.len() < 2,
    ensures
        consistency_of(xs) == 5000,
{
}

} // verus!
