use vstd::prelude::*;

verus! {

/// One successful round trip: how long it took and how many bytes the
/// single bounded read returned.
#[derive(Clone, Copy, Debug, PartialEq, Eq, Structural)]
pub struct Sample {
    pub latency_nanos: u64,
    pub byte_count: u32,
}

impl Sample {
    pub fn new(latency_nanos: u64, byte_count: u32) -> (r: Sample)
        ensures
            r.latency_nanos == latency_nanos,
            r.byte_count == byte_count,
    {
        Sample { latency_nanos, byte_count }
    }
}

/// Every sample's latency is at most that of any later sample.
pub open spec fn sorted_by_latency(s: Seq<Sample>) -> bool {
    forall|i: int, j: int| 0 <= i <= j < s.len() ==> s[i].latency_nanos <= s[j].latency_nanos
}

} // verus!
