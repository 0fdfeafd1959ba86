use vstd::prelude::*;
use crate::histogram::{Bucket, boundary, bucket_count, counts_total, histogram};
use crate::sample::{Sample, sorted_by_latency};
use crate::sort::sort_by_latency;
use crate::stats::{byte_total, mean_latency, mean_latency_of, percentile_index, rank_of};

verus! {

/// One reported percentile and the latency found at its rank.
#[derive(Clone, Copy, Debug, PartialEq, Eq, Structural)]
pub struct Percentile {
    pub percent: u64,
    pub latency_nanos: u64,
}

/// Latency figures of a run with at least one sample.
#[derive(Debug)]
pub struct LatencyStats {
    pub mean_nanos: u64,
    pub min_nanos: u64,
    pub max_nanos: u64,
    pub percentiles: Vec<Percentile>,
    pub histogram: Vec<Bucket>,
}

/// Everything a finished run reports. `latency` is `None` exactly when the
/// run produced no sample.
#[derive(Debug)]
pub struct RunReport {
    pub duration_nanos: u64,
    pub count: usize,
    pub total_bytes: u128,
    pub requests_per_sec: u128,
    pub bytes_per_sec: u128,
    pub samples: Vec<Sample>,
    pub latency: Option<LatencyStats>,
}

/// The percentiles every report gives, in this order.
pub open spec fn percentile_levels() -> Seq<u64> {
    seq![10, 25, 50, 75, 90, 95, 99]
}

/// `amount` per second of a run that lasted `duration_nanos`, truncated; a
/// run of no measurable duration has a rate of zero.
pub open spec fn per_second(amount: int, duration_nanos: int) -> int {
    if duration_nanos == 0 {
        0
    } else {
        amount * 1_000_000_000 / duration_nanos
    }
}

/// What the latency figures of a non-empty latency-ordered run are.
pub open spec fn describes(st: LatencyStats, s: Seq<Sample>) -> bool {
    &&& st.min_nanos == s[0].latency_nanos
    &&& st.max_nanos == s.last().latency_nanos
    &&& st.mean_nanos == mean_latency(s)
    &&& st.percentiles@.len() == 7
    &&& forall|i: int|
        #![trigger st.percentiles@[i]]
        0 <= i < 7 ==> (st.percentiles@[i].percent == percentile_levels()[i]
            && st.percentiles@[i].latency_nanos == s[rank_of(
            s.len() as int,
            percentile_levels()[i] as int,
        )].latency_nanos)
    &&& st.histogram@.len() == 11
    &&& forall|i: int|
        #![trigger st.histogram@[i]]
        0 <= i < 11 ==> (st.histogram@[i].upper_nanos == boundary(s, i)
            && st.histogram@[i].count == bucket_count(s, i))
    &&& counts_total(st.histogram@) == s.len()
}

/// Amount per second over a duration given in nanoseconds.
pub fn rate_per_second(amount: u128, duration_nanos: u64) -> (r: u128)
    requires
        amount <= u128::MAX / 1_000_000_000,
    ensures
        r == per_second(amount as int, duration_nanos as int),
{
    if duration_nanos == 0 {
        0
    } else {
        amount * 1_000_000_000 / duration_nanos as u128
    }
}

/// The latency at each reported percentile of a non-empty latency-ordered run.
pub fn percentiles(s: &Vec<Sample>) -> (r: Vec<Percentile>)
    requires
        s.len() > 0,
    ensures
        r.len() == 7,
        forall|i: int|
            #![trigger r@[i]]
            0 <= i < 7 ==> (r@[i].percent == percentile_levels()[i] && r@[i].latency_nanos
                == s@[rank_of(s.len() as int, percentile_levels()[i] as int)].latency_nanos),
{
    let levels: Vec<u64> = vec![10, 25, 50, 75, 90, 95, 99];
    assert(levels@ == percentile_levels());
    let mut out: Vec<Percentile> = Vec::new();
    let mut i: usize = 0;
    while i < levels.len()
        invariant
            levels@ == percentile_levels(),
            s.len() > 0,
            i <= 7,
            out.len() == i,
            forall|j: int|
                #![trigger out@[j]]
                0 <= j < i ==> (out@[j].percent == percentile_levels()[j] && out@[j].latency_nanos
                    == s@[rank_of(s.len() as int, percentile_levels()[j] as int)].latency_nanos),
        decreases 7 - i,
    {
        let p = levels[i];
        let idx = percentile_index(s.len(), p);
        out.push(Percentile { percent: p, latency_nanos: s[idx].latency_nanos });
        i = i + 1;
    }
    out
}

/// Mean, extremes, percentiles and histogram of a non-empty latency-ordered run.
pub fn latency_stats(s: &Vec<Sample>) -> (r: LatencyStats)
    requires
        sorted_by_latency(s@),
        s.len() > 0,
    ensures
        describes(r, s@),
{
    LatencyStats {
        mean_nanos: mean_latency_of(s),
        min_nanos: s[0].latency_nanos,
        max_nanos: s[s.len() - 1].latency_nanos,
        percentiles: percentiles(s),
        histogram: histogram(s),
    }
}

/// Reduces the merged samples of a run and its wall-clock duration to the
/// run's report. The samples come back ordered by latency; an empty run is a
/// report with a count of zero and no latency figures.
pub fn report(samples: Vec<Sample>, duration_nanos: u64) -> (r: RunReport)
    ensures
        r.duration_nanos == duration_nanos,
        r.count == samples.len(),
        r.samples@.to_multiset() == samples@.to_multiset(),
        sorted_by_latency(r.samples@),
        sorted_by_latency(samples@) ==> r.samples@ == samples@,
        r.total_bytes == byte_total(r.samples@),
        r.requests_per_sec == per_second(samples.len() as int, duration_nanos as int),
        r.bytes_per_sec == per_second(byte_total(r.samples@), duration_nanos as int),
        r.latency is None <==> samples.len() == 0,
        r.latency is Some ==> describes(r.latency->0, r.samples@),
{
    let mut run = samples;
    sort_by_latency(&mut run);
    proof {
        run@.to_multiset_ensures();
        samples@.to_multiset_ensures();
    }
    let count = run.len();
    let total_bytes = crate::stats::sum_bytes(&run);
    assert(count as int * (u32::MAX as int) <= u128::MAX / 1_000_000_000) by (nonlinear_arith)
        requires
            count <= u64::MAX,
    {
    }
    let requests_per_sec = rate_per_second(count as u128, duration_nanos);
    let bytes_per_sec = rate_per_second(total_bytes, duration_nanos);
    let latency = if count == 0 {
        None
    } else {
        Some(latency_stats(&run))
    };
    RunReport { duration_nanos, count, total_bytes, requests_per_sec, bytes_per_sec, samples: run, latency }
}

impl RunReport {
    /// The data rate in decimal megabytes per second, as whole megabytes and
    /// the remaining millionths.
    pub fn megabytes_per_sec(&self) -> (r: (u128, u128))
        ensures
            r.0 == self.bytes_per_sec / 1_000_000,
            r.1 == self.bytes_per_sec % 1_000_000,
    {
        (self.bytes_per_sec / 1_000_000, self.bytes_per_sec % 1_000_000)
    }
}

} // verus!
