use vstd::prelude::*;
use crate::sample::{Sample, sorted_by_latency};
use vstd::arithmetic::div_mod::lemma_div_is_ordered;

verus! {

/// Nearest-rank position of percentile `p` among `total` ordered samples:
/// `floor(total * p / 100)`, clamped to the last position.
pub open spec fn rank_of(total: int, p: int) -> int {
    if total * p / 100 < total - 1 {
        total * p / 100
    } else {
        total - 1
    }
}

/// Sum of all latencies, in nanoseconds.
pub open spec fn latency_total(s: Seq<Sample>) -> int
    decreases s.len(),
{
    if s.len() == 0 {
        0
    } else {
        latency_total(s.drop_last()) + s.last().latency_nanos
    }
}

/// Sum of all byte counts.
pub open spec fn byte_total(s: Seq<Sample>) -> int
    decreases s.len(),
{
    if s.len() == 0 {
        0
    } else {
        byte_total(s.drop_last()) + s.last().byte_count
    }
}

/// Mean latency, truncated to whole nanoseconds.
pub open spec fn mean_latency(s: Seq<Sample>) -> int {
    latency_total(s) / s.len() as int
}

/// How many samples have a latency of at most `t`.
pub open spec fn count_at_most(s: Seq<Sample>, t: int) -> int
    decreases s.len(),
{
    if s.len() == 0 {
        0
    } else {
        count_at_most(s.drop_last(), t) + if s.last().latency_nanos <= t {
            1int
        } else {
            0int
        }
    }
}

/// Index of percentile `p` in a latency-ordered sequence of `total` samples.
pub fn percentile_index(total: usize, p: u64) -> (r: usize)
    requires
        total >= 1,
    ensures
        r == rank_of(total as int, p as int),
        r < total,
{
    assert(total as int * p as int <= u64::MAX as int * u64::MAX as int) by (nonlinear_arith)
        requires
            total as int <= u64::MAX,
            p as int <= u64::MAX,
            0 <= total,
            0 <= p,
    {
    }
    let scaled: u128 = total as u128 * p as u128;
    let idx: u128 = scaled / 100;
    if idx < (total - 1) as u128 {
        idx as usize
    } else {
        total - 1
    }
}

/// The summed latency lies between `len * lo` and `len * hi` when every
/// latency does.
proof fn lemma_latency_total_bounds(s: Seq<Sample>, lo: int, hi: int)
    requires
        forall|k: int| 0 <= k < s.len() ==> lo <= #[trigger] s[k].latency_nanos <= hi,
    ensures
        s.len() * lo <= latency_total(s) <= s.len() * hi,
    decreases s.len(),
{
    if s.len() > 0 {
        let d = s.drop_last();
        assert forall|k: int| 0 <= k < d.len() implies lo <= #[trigger] d[k].latency_nanos <= hi by {
            assert(d[k] == s[k]);
        }
        lemma_latency_total_bounds(d, lo, hi);
        assert((d.len() + 1) * lo == d.len() * lo + lo) by (nonlinear_arith);
        assert((d.len() + 1) * hi == d.len() * hi + hi) by (nonlinear_arith);
    }
}

/// For any non-empty latency-ordered run, the mean latency lies between the
/// first (smallest) and the last (largest) latency.
pub proof fn lemma_mean_between_extremes(s: Seq<Sample>)
    requires
        sorted_by_latency(s),
        s.len() > 0,
    ensures
        s[0].latency_nanos <= mean_latency(s) <= s.last().latency_nanos,
{
    let lo = s[0].latency_nanos as int;
    let hi = s.last().latency_nanos as int;
    lemma_latency_total_bounds(s, lo, hi);
    let n = s.len() as int;
    let t = latency_total(s);
    assert(lo <= t / n <= hi) by (nonlinear_arith)
        requires
            n * lo <= t <= n * hi,
            n > 0,
    {
        assert((n * lo) / n == lo);
        assert((n * hi) / n == hi);
        lemma_div_is_ordered(n * lo, t, n);
        lemma_div_is_ordered(t, n * hi, n);
    }
}

/// Sum of the latencies, in an accumulator wide enough for any length.
fn sum_latencies(s: &Vec<Sample>) -> (r: u128)
    ensures
        r == latency_total(s@),
{
    let mut sum: u128 = 0;
    let mut i: usize = 0;
    while i < s.len()
        invariant
            i <= s.len(),
            sum == latency_total(s@.subrange(0, i as int)),
            sum <= i * (u64::MAX as int),
        decreases s.len() - i,
    {
        assert(s@.subrange(0, i + 1).drop_last() == s@.subrange(0, i as int));
        let x = s[i].latency_nanos;
        assert(sum + x <= (i + 1) * (u64::MAX as int)) by (nonlinear_arith)
            requires
                sum <= i * (u64::MAX as int),
                x <= u64::MAX,
        {
        }
        assert((i + 1) * (u64::MAX as int) <= u128::MAX) by (nonlinear_arith)
            requires
                i < usize::MAX,
                usize::MAX <= u64::MAX,
        {
        }
        sum = sum + x as u128;
        i = i + 1;
    }
    assert(s@.subrange(0, i as int) == s@);
    sum
}

/// Sum of the byte counts.
pub(crate) fn sum_bytes(s: &Vec<Sample>) -> (r: u128)
    ensures
        r == byte_total(s@),
        r <= s.len() * (u32::MAX as int),
{
    let mut sum: u128 = 0;
    let mut i: usize = 0;
    while i < s.len()
        invariant
            i <= s.len(),
            sum == byte_total(s@.subrange(0, i as int)),
            sum <= i * (u32::MAX as int),
        decreases s.len() - i,
    {
        assert(s@.subrange(0, i + 1).drop_last() == s@.subrange(0, i as int));
        let x = s[i].byte_count;
        assert(sum + x <= (i + 1) * (u32::MAX as int)) by (nonlinear_arith)
            requires
                sum <= i * (u32::MAX as int),
                x <= u32::MAX,
        {
        }
        assert((i + 1) * (u32::MAX as int) <= u128::MAX) by (nonlinear_arith)
            requires
                i < usize::MAX,
                usize::MAX <= u64::MAX,
        {
        }
        sum = sum + x as u128;
        i = i + 1;
    }
    assert(s@.subrange(0, i as int) == s@);
    sum
}

/// Mean latency of a non-empty latency-ordered run.
pub fn mean_latency_of(s: &Vec<Sample>) -> (r: u64)
    requires
        sorted_by_latency(s@),
        s.len() > 0,
    ensures
        r == mean_latency(s@),
{
    let total = sum_latencies(s);
    proof {
        lemma_mean_between_extremes(s@);
    }
    (total / s.len() as u128) as u64
}

} // verus!
