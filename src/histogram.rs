use vstd::prelude::*;
use crate::sample::{Sample, sorted_by_latency};
use crate::stats::count_at_most;
use vstd::arithmetic::div_mod::lemma_div_is_ordered;

verus! {

/// One histogram bucket: its upper latency boundary and how many samples the
/// forward cursor consumed when it reached that boundary.
#[derive(Clone, Copy, Debug, PartialEq, Eq, Structural)]
pub struct Bucket {
    pub upper_nanos: u64,
    pub count: usize,
}

/// The `i`-th of eleven boundaries spaced evenly from the smallest to the
/// largest latency of a latency-ordered run.
pub open spec fn boundary(s: Seq<Sample>, i: int) -> int {
    s[0].latency_nanos + i * (s.last().latency_nanos - s[0].latency_nanos) / 10
}

/// Samples consumed at boundary `i`: those at most that boundary and above the
/// one before. In a latency-ordered run this is exactly what a single cursor
/// walking forward, never reset, consumes at that boundary.
pub open spec fn bucket_count(s: Seq<Sample>, i: int) -> int {
    count_at_most(s, boundary(s, i)) - if i == 0 {
        0
    } else {
        count_at_most(s, boundary(s, i - 1))
    }
}

/// Sum of the first `n` bucket counts.
pub open spec fn bucket_sum(s: Seq<Sample>, n: int) -> int
    decreases n,
{
    if n <= 0 {
        0
    } else {
        bucket_sum(s, n - 1) + bucket_count(s, n - 1)
    }
}

/// Sum of the counts of a sequence of buckets.
pub open spec fn counts_total(b: Seq<Bucket>) -> int
    decreases b.len(),
{
    if b.len() == 0 {
        0
    } else {
        counts_total(b.drop_last()) + b.last().count
    }
}

/// Where every sample before `c` is at most `t` and every later one is above
/// it, exactly `c` samples are at most `t`.
pub proof fn lemma_count_at_cut(s: Seq<Sample>, t: int, c: int)
    requires
        0 <= c <= s.len(),
        forall|k: int| 0 <= k < c ==> #[trigger] s[k].latency_nanos <= t,
        forall|k: int| c <= k < s.len() ==> #[trigger] s[k].latency_nanos > t,
    ensures
        count_at_most(s, t) == c,
    decreases s.len(),
{
    if s.len() > 0 {
        let d = s.drop_last();
        if c == s.len() {
            assert forall|k: int| 0 <= k < c - 1 implies #[trigger] d[k].latency_nanos <= t by {
                assert(d[k] == s[k]);
            }
            lemma_count_at_cut(d, t, c - 1);
        } else {
            assert forall|k: int| 0 <= k < c implies #[trigger] d[k].latency_nanos <= t by {
                assert(d[k] == s[k]);
            }
            assert forall|k: int| c <= k < d.len() implies #[trigger] d[k].latency_nanos > t by {
                assert(d[k] == s[k]);
            }
            lemma_count_at_cut(d, t, c);
        }
    }
}

/// The boundaries never decrease, start at the smallest latency and end at
/// the largest.
pub proof fn lemma_boundaries_ordered(s: Seq<Sample>, i: int, j: int)
    requires
        sorted_by_latency(s),
        s.len() > 0,
        0 <= i <= j <= 10,
    ensures
        boundary(s, i) <= boundary(s, j),
        boundary(s, 0) == s[0].latency_nanos,
        boundary(s, 10) == s.last().latency_nanos,
        boundary(s, j) <= s.last().latency_nanos,
{
    let w = s.last().latency_nanos - s[0].latency_nanos;
    assert(w >= 0);
    assert(i * w <= j * w) by (nonlinear_arith)
        requires
            i <= j,
            w >= 0,
    {
    }
    assert(j * w <= 10 * w) by (nonlinear_arith)
        requires
            j <= 10,
            w >= 0,
    {
    }
    lemma_div_is_ordered(i * w, j * w, 10);
    lemma_div_is_ordered(j * w, 10 * w, 10);
    assert(0 * w == 0);
    assert((10 * w) / 10 == w);
}

proof fn lemma_bucket_sum_telescopes(s: Seq<Sample>, n: int)
    requires
        n >= 1,
    ensures
        bucket_sum(s, n) == count_at_most(s, boundary(s, n - 1)),
    decreases n,
{
    if n > 1 {
        lemma_bucket_sum_telescopes(s, n - 1);
    } else {
        assert(bucket_sum(s, 0) == 0);
    }
}

/// The eleven bucket counts of a non-empty latency-ordered run add up to the
/// number of samples: each sample is consumed exactly once.
pub proof fn lemma_buckets_account_for_every_sample(s: Seq<Sample>)
    requires
        sorted_by_latency(s),
        s.len() > 0,
    ensures
        bucket_sum(s, 11) == s.len(),
{
    lemma_bucket_sum_telescopes(s, 11);
    lemma_boundaries_ordered(s, 10, 10);
    assert forall|k: int| 0 <= k < s.len() implies #[trigger] s[k].latency_nanos <= boundary(
        s,
        10,
    ) by {
        assert(s[k].latency_nanos <= s[s.len() - 1].latency_nanos);
    }
    lemma_count_at_cut(s, boundary(s, 10), s.len() as int);
}

/// When every latency is the same, all boundaries coincide: the first bucket
/// holds every sample and the other ten are empty.
pub proof fn lemma_identical_latencies_fill_first_bucket(s: Seq<Sample>)
    requires
        sorted_by_latency(s),
        s.len() > 0,
        s[0].latency_nanos == s.last().latency_nanos,
    ensures
        bucket_count(s, 0) == s.len(),
        forall|i: int| 1 <= i < 11 ==> #[trigger] bucket_count(s, i) == 0,
{
    assert forall|i: int| 0 <= i < 11 implies #[trigger] boundary(s, i) == s[0].latency_nanos by {
        assert(i * 0 == 0);
    }
    assert forall|k: int| 0 <= k < s.len() implies #[trigger] s[k].latency_nanos <= s[0].latency_nanos by {
        assert(s[k].latency_nanos <= s[s.len() - 1].latency_nanos);
    }
    lemma_count_at_cut(s, s[0].latency_nanos as int, s.len() as int);
    assert(boundary(s, 0) == s[0].latency_nanos);
    assert forall|i: int| 1 <= i < 11 implies #[trigger] bucket_count(s, i) == 0 by {
        assert(boundary(s, i) == s[0].latency_nanos);
        assert(boundary(s, i - 1) == s[0].latency_nanos);
    }
}

/// Bucket counts of a latency-ordered, non-empty run: eleven buckets whose
/// boundaries run evenly from the smallest to the largest latency.
pub fn histogram(s: &Vec<Sample>) -> (r: Vec<Bucket>)
    requires
        sorted_by_latency(s@),
        s.len() > 0,
    ensures
        r.len() == 11,
        forall|i: int|
            #![trigger r@[i]]
            0 <= i < 11 ==> (r@[i].upper_nanos == boundary(s@, i) && r@[i].count == bucket_count(
                s@,
                i,
            )),
        counts_total(r@) == s.len(),
{
    let n = s.len();
    let lo = s[0].latency_nanos;
    let hi = s[n - 1].latency_nanos;
    let width: u64 = hi - lo;
    let mut out: Vec<Bucket> = Vec::new();
    let mut cursor: usize = 0;
    let mut i: u64 = 0;
    while i <= 10
        invariant
            n == s.len(),
            n > 0,
            sorted_by_latency(s@),
            lo == s@[0].latency_nanos,
            hi == s@.last().latency_nanos,
            width == hi - lo,
            i <= 11,
            out.len() == i,
            cursor <= n,
            i == 0 ==> cursor == 0,
            i > 0 ==> cursor == count_at_most(s@, boundary(s@, i - 1)),
            i > 0 ==> forall|k: int|
                0 <= k < cursor ==> #[trigger] s@[k].latency_nanos <= boundary(s@, i - 1),
            i > 0 ==> forall|k: int|
                cursor <= k < n ==> #[trigger] s@[k].latency_nanos > boundary(s@, i - 1),
            counts_total(out@) == cursor,
            forall|j: int|
                #![trigger out@[j]]
                0 <= j < i ==> (out@[j].upper_nanos == boundary(s@, j) && out@[j].count
                    == bucket_count(s@, j)),
        decreases 11 - i,
    {
        proof {
            lemma_boundaries_ordered(s@, i as int, i as int);
            if i > 0 {
                lemma_boundaries_ordered(s@, i - 1, i as int);
            }
        }
        assert(i * width <= 10 * width) by (nonlinear_arith)
            requires
                i <= 10,
        {
        }
        assert(i * width / 10 <= width) by (nonlinear_arith)
            requires
                i <= 10,
                (10 * width) / 10 == width,
                i * width <= 10 * width,
        {
            lemma_div_is_ordered(i * width, 10 * width, 10);
        }
        let b: u64 = lo + (i as u128 * width as u128 / 10) as u64;
        assert(b == boundary(s@, i as int));
        let start = cursor;
        while cursor < n && s[cursor].latency_nanos <= b
            invariant
                n == s.len(),
                start <= cursor <= n,
                forall|k: int| 0 <= k < cursor ==> #[trigger] s@[k].latency_nanos <= b,
            decreases n - cursor,
        {
            cursor = cursor + 1;
        }
        proof {
            assert forall|k: int| cursor <= k < n implies #[trigger] s@[k].latency_nanos > b by {
                assert(s@[cursor as int].latency_nanos <= s@[k].latency_nanos);
            }
            lemma_count_at_cut(s@, b as int, cursor as int);
        }
        let ghost before = out@;
        out.push(Bucket { upper_nanos: b, count: cursor - start });
        assert(out@.drop_last() == before);
        i = i + 1;
    }
    proof {
        lemma_boundaries_ordered(s@, 10, 10);
        assert forall|k: int| 0 <= k < n implies #[trigger] s@[k].latency_nanos <= boundary(
            s@,
            10,
        ) by {
            assert(s@[k].latency_nanos <= s@[n - 1].latency_nanos);
        }
        lemma_count_at_cut(s@, boundary(s@, 10), n as int);
    }
    out
}

} // verus!
