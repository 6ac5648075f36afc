//! Byte histograms and Pearson's chi-square statistic of a byte sample
//! against the uniform distribution over the 256 byte values.
//!
//! With `n` bytes and `c_v` occurrences of value `v`, the expected count is
//! `e = n / 256` and the statistic is `sum_v (c_v - e)^2 / e`, which equals
//! `(256 * sum_v c_v^2 - n^2) / n`. The library computes the numerator
//! `256 * sum_v c_v^2 - n^2` exactly, in integers: the statistic times `n`.
use vstd::prelude::*;

verus! {

/// The number of occurrences of `v` in `s`.
pub open spec fn count_of(s: Seq<u8>, v: int) -> nat
    decreases s.len(),
{
    if s.len() == 0 {
        0
    } else {
        count_of(s.drop_last(), v) + if s.last() as int == v {
            1nat
        } else {
            0nat
        }
    }
}

/// The histogram of `s`: entry `v` is the number of occurrences of byte value `v`.
pub open spec fn histogram(s: Seq<u8>) -> Seq<nat> {
    Seq::new(256, |v: int| count_of(s, v))
}

/// The sum of a sequence of naturals.
pub open spec fn sum(c: Seq<nat>) -> nat
    decreases c.len(),
{
    if c.len() == 0 {
        0
    } else {
        sum(c.drop_last()) + c.last()
    }
}

/// The sum of the squares of a sequence of naturals.
pub open spec fn sum_squares(c: Seq<nat>) -> nat
    decreases c.len(),
{
    if c.len() == 0 {
        0
    } else {
        sum_squares(c.drop_last()) + c.last() * c.last()
    }
}

/// The chi-square statistic of `s` against the uniform byte distribution,
/// multiplied by the sample size: `256 * sum_v c_v^2 - n^2`.
pub open spec fn chi_square_scaled(s: Seq<u8>) -> int {
    256 * sum_squares(histogram(s)) - s.len() * s.len()
}

/// The largest sample `byte_frequency_chi_square` takes (2^48 bytes, more
/// than a 64-bit machine's user address space holds).
pub const MAX_SAMPLE_LEN: u64 = 0x1_0000_0000_0000;

proof fn lemma_count_of_push(s: Seq<u8>, b: u8, v: int)
    ensures
        count_of(s.push(b), v) == count_of(s, v) + if b as int == v {
            1nat
        } else {
            0nat
        },
{
    assert(s.push(b).drop_last() =~= s);
}

proof fn lemma_count_of_bounded(s: Seq<u8>, v: int)
    ensures
        count_of(s, v) <= s.len(),
    decreases s.len(),
{
    if s.len() > 0 {
        lemma_count_of_bounded(s.drop_last(), v);
    }
}

/// Raising one entry of a sequence by one raises its sum by one.
proof fn lemma_sum_increment(c1: Seq<nat>, c2: Seq<nat>, j: int)
    requires
        c1.len() == c2.len(),
        0 <= j < c1.len(),
        forall|i: int| 0 <= i < c1.len() ==> c2[i] == c1[i] + if i == j {
            1nat
        } else {
            0nat
        },
    ensures
        sum(c2) == sum(c1) + 1,
    decreases c1.len(),
{
    let k = c1.len() - 1;
    if j == k {
        assert(c1.drop_last() =~= c2.drop_last());
    } else {
        lemma_sum_increment(c1.drop_last(), c2.drop_last(), j);
    }
}

/// A histogram's entries add up to the sample size.
pub proof fn lemma_histogram_sum(s: Seq<u8>)
    ensures
        sum(histogram(s)) == s.len(),
    decreases s.len(),
{
    if s.len() == 0 {
        lemma_sum_zero(histogram(s));
    } else {
        let t = s.drop_last();
        let b = s.last();
        assert(t.push(b) =~= s);
        lemma_histogram_sum(t);
        assert forall|i: int| 0 <= i < 256 implies histogram(s)[i] == histogram(t)[i] + if i
            == b as int {
            1nat
        } else {
            0nat
        } by {
            lemma_count_of_push(t, b, i);
        }
        lemma_sum_increment(histogram(t), histogram(s), b as int);
    }
}

proof fn lemma_sum_zero(c: Seq<nat>)
    requires
        forall|i: int| 0 <= i < c.len() ==> c[i] == 0,
    ensures
        sum(c) == 0,
    decreases c.len(),
{
    if c.len() > 0 {
        lemma_sum_zero(c.drop_last());
    }
}

/// The sum of squares is at most the square of the sum.
pub proof fn lemma_sum_squares_at_most_square(c: Seq<nat>)
    ensures
        sum_squares(c) <= sum(c) * sum(c),
    decreases c.len(),
{
    if c.len() > 0 {
        let d = c.drop_last();
        lemma_sum_squares_at_most_square(d);
        let s = sum(d);
        let q = sum_squares(d);
        let x = c.last();
        assert(q + x * x <= (s + x) * (s + x)) by (nonlinear_arith)
            requires
                q <= s * s,
        ;
    }
}

/// Cauchy-Schwarz for a sequence of length `k`: `(sum c)^2 <= k * sum c^2`.
pub proof fn lemma_square_of_sum_bounded(c: Seq<nat>)
    ensures
        sum(c) * sum(c) <= c.len() * sum_squares(c),
    decreases c.len(),
{
    if c.len() > 0 {
        let d = c.drop_last();
        lemma_square_of_sum_bounded(d);
        let k = d.len();
        let s = sum(d);
        let q = sum_squares(d);
        let x = c.last();
        assert(sum(c) == s + x);
        assert(sum_squares(c) == q + x * x);
        if k == 0 {
            assert(s == 0);
            assert(q == 0);
            assert((0 + x) * (0 + x) <= 1 * (0 + x * x)) by (nonlinear_arith);
        } else {
            assert((s + x) * (s + x) <= (k + 1) * (q + x * x)) by (nonlinear_arith)
                requires
                    s * s <= k * q,
                    k > 0,
            {
                assert(k * (q + k * x * x) >= s * s + k * k * x * x);
                assert((s - k * x) * (s - k * x) >= 0);
                assert(s * s + k * k * x * x >= 2 * k * s * x);
                assert(k * (q + k * x * x) >= k * (2 * s * x));
                assert(q + k * x * x >= 2 * s * x);
            }
        }
    }
}

/// The scaled chi-square statistic is never negative, and at most `255 * n^2`.
pub proof fn lemma_chi_square_scaled_bounds(s: Seq<u8>)
    ensures
        0 <= chi_square_scaled(s) <= 255 * s.len() * s.len(),
{
    let h = histogram(s);
    lemma_histogram_sum(s);
    lemma_square_of_sum_bounded(h);
    lemma_sum_squares_at_most_square(h);
    let n = s.len();
    let q = sum_squares(h);
    assert(0 <= 256 * q - n * n <= 255 * n * n) by (nonlinear_arith)
        requires
            n * n <= 256 * q,
            q <= n * n,
    ;
}

/// The sum, over the first `k` byte values `v`, of `(256 * c_v - n)^2`:
/// the squared deviations of the counts from the uniform expectation, scaled
/// by 256.
pub open spec fn squared_deviations(s: Seq<u8>, k: nat) -> int
    decreases k,
{
    if k == 0 {
        0
    } else {
        let d = 256 * count_of(s, k - 1) - s.len();
        squared_deviations(s, (k - 1) as nat) + d * d
    }
}

proof fn lemma_squared_deviations_expand(s: Seq<u8>, k: nat)
    requires
        k <= 256,
    ensures
        squared_deviations(s, k) == 65536 * sum_squares(histogram(s).take(k as int)) - 512
            * s.len() * sum(histogram(s).take(k as int)) + k * s.len() * s.len(),
    decreases k,
{
    let h = histogram(s);
    let n = s.len();
    if k == 0 {
        assert(h.take(0) =~= Seq::<nat>::empty());
    } else {
        lemma_squared_deviations_expand(s, (k - 1) as nat);
        assert(h.take(k as int).drop_last() =~= h.take(k - 1));
        let c = count_of(s, k - 1);
        assert(h.take(k as int).last() == c);
        let q = sum_squares(h.take(k - 1));
        let m = sum(h.take(k - 1));
        assert((256 * c - n) * (256 * c - n) == 65536 * (c * c) - 512 * n * c + n * n)
            by (nonlinear_arith);
        assert(65536 * (q + c * c) - 512 * n * (m + c) + k * n * n == 65536 * q - 512 * n * m
            + (k - 1) * n * n + 65536 * (c * c) - 512 * n * c + n * n) by (nonlinear_arith);
    }
}

/// Pearson's definition: with `e = n / 256` expected occurrences per value,
/// `n * sum_v (c_v - e)^2 / e == sum_v (256 * c_v - n)^2 / 256`, so 256 times
/// the scaled statistic is the sum over all 256 byte values of
/// `(256 * c_v - n)^2`.
pub proof fn lemma_chi_square_is_pearson(s: Seq<u8>)
    ensures
        256 * chi_square_scaled(s) == squared_deviations(s, 256),
{
    let h = histogram(s);
    let n = s.len();
    lemma_squared_deviations_expand(s, 256);
    assert(h.take(256) =~= h);
    lemma_histogram_sum(s);
    let q = sum_squares(h);
    assert(65536 * q - 512 * n * n + 256 * n * n == 256 * (256 * q - n * n)) by (nonlinear_arith);
}

/// Counts the occurrences of each byte value in `bytes`.
pub fn byte_histogram(bytes: &[u8]) -> (counts: Vec<u64>)
    ensures
        counts@.len() == 256,
        forall|v: int| 0 <= v < 256 ==> counts@[v] == count_of(bytes@, v),
{
    let mut counts: Vec<u64> = Vec::new();
    let mut k: usize = 0;
    while k < 256
        invariant
            k <= 256,
            counts@.len() == k,
            forall|v: int| 0 <= v < k ==> counts@[v] == 0,
        decreases 256 - k,
    {
        counts.push(0);
        k = k + 1;
    }
    let n = bytes.len();
    let mut i: usize = 0;
    while i < n
        invariant
            n == bytes@.len(),
            i <= n,
            counts@.len() == 256,
            forall|v: int| 0 <= v < 256 ==> counts@[v] == count_of(bytes@.take(i as int), v),
        decreases n - i,
    {
        let b = bytes[i];
        proof {
            assert(bytes@.take(i as int).push(b) =~= bytes@.take(i + 1));
            assert forall|v: int| 0 <= v < 256 implies count_of(bytes@.take(i + 1), v)
                == count_of(bytes@.take(i as int), v) + if b as int == v {
                1nat
            } else {
                0nat
            } by {
                lemma_count_of_push(bytes@.take(i as int), b, v);
            }
            lemma_count_of_bounded(bytes@.take(i as int), b as int);
        }
        let old_count = counts[b as usize];
        counts.set(b as usize, old_count + 1);
        i = i + 1;
    }
    assert(bytes@.take(n as int) =~= bytes@);
    counts
}

/// Pearson's chi-square statistic of `bytes` against the uniform byte
/// distribution, times the number of bytes: `256 * sum_v c_v^2 - n^2`.
/// The statistic itself is this value divided by `n`.
pub fn byte_frequency_chi_square(bytes: &[u8]) -> (r: u128)
    requires
        bytes@.len() <= MAX_SAMPLE_LEN,
    ensures
        r == chi_square_scaled(bytes@),
{
    let counts = byte_histogram(bytes);
    let ghost h = histogram(bytes@);
    let n = bytes.len();
    proof {
        assert(counts@.len() == h.len());
        lemma_histogram_sum(bytes@);
        lemma_sum_squares_at_most_square(h);
    }
    let mut squares: u128 = 0;
    let mut v: usize = 0;
    while v < 256
        invariant
            v <= 256,
            n == bytes@.len(),
            n <= MAX_SAMPLE_LEN,
            h == histogram(bytes@),
            counts@.len() == 256,
            forall|w: int| 0 <= w < 256 ==> counts@[w] == h[w],
            squares == sum_squares(h.take(v as int)),
            sum_squares(h) <= n * n,
        decreases 256 - v,
    {
        proof {
            assert(h.take(v + 1).drop_last() =~= h.take(v as int));
            lemma_sum_squares_prefix(h, v as int + 1);
        }
        let c = counts[v] as u128;
        proof {
            assert(c * c <= sum_squares(h.take(v + 1)));
            assert(n * n <= MAX_SAMPLE_LEN * MAX_SAMPLE_LEN) by (nonlinear_arith)
                requires
                    n <= MAX_SAMPLE_LEN,
            ;
        }
        squares = squares + c * c;
        v = v + 1;
    }
    proof {
        assert(h.take(256) =~= h);
        lemma_chi_square_scaled_bounds(bytes@);
        assert(n * n <= MAX_SAMPLE_LEN * MAX_SAMPLE_LEN) by (nonlinear_arith)
            requires
                n <= MAX_SAMPLE_LEN,
        ;
    }
    let nn = (n as u128) * (n as u128);
    256 * squares - nn
}

/// A prefix's sum of squares is at most the whole sequence's.
proof fn lemma_sum_squares_prefix(c: Seq<nat>, k: int)
    requires
        0 <= k <= c.len(),
    ensures
        sum_squares(c.take(k)) <= sum_squares(c),
    decreases c.len(),
{
    if k < c.len() {
        assert(c.drop_last().take(k) =~= c.take(k));
        lemma_sum_squares_prefix(c.drop_last(), k);
    } else {
        assert(c.take(k) =~= c);
    }
}

} // verus!
