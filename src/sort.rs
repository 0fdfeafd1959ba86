use vstd::prelude::*;
use crate::sample::{Sample, sorted_by_latency};

verus! {

broadcast use vstd::seq_lib::group_seq_properties, vstd::seq_lib::group_to_multiset_ensures,
    vstd::multiset::group_multiset_axioms;

/// Stable merge of two latency-sorted runs.
fn merge(a: &Vec<Sample>, b: &Vec<Sample>) -> (r: Vec<Sample>)
    requires
        sorted_by_latency(a@),
        sorted_by_latency(b@),
    ensures
        sorted_by_latency(r@),
        r@.to_multiset() == a@.to_multiset().add(b@.to_multiset()),
        sorted_by_latency(a@ + b@) ==> r@ == a@ + b@,
{
    let mut r: Vec<Sample> = Vec::new();
    let mut i: usize = 0;
    let mut j: usize = 0;
    let ghost in_order = sorted_by_latency(a@ + b@);
    while i < a.len() || j < b.len()
        invariant
            i <= a.len(),
            j <= b.len(),
            sorted_by_latency(a@),
            sorted_by_latency(b@),
            in_order == sorted_by_latency(a@ + b@),
            sorted_by_latency(r@),
            r@.len() == i + j,
            r@.to_multiset() == a@.subrange(0, i as int).to_multiset().add(
                b@.subrange(0, j as int).to_multiset(),
            ),
            r@.len() > 0 && i < a.len() ==> r@.last().latency_nanos <= a@[i as int].latency_nanos,
            r@.len() > 0 && j < b.len() ==> r@.last().latency_nanos <= b@[j as int].latency_nanos,
            in_order ==> r@ == a@.subrange(0, i as int) + b@.subrange(0, j as int),
            in_order && i < a.len() ==> j == 0,
        decreases a.len() + b.len() - i - j,
    {
        let ghost old_r = r@;
        if j >= b.len() || (i < a.len() && a[i].latency_nanos <= b[j].latency_nanos) {
            proof {
                if in_order && i < a.len() && j < b.len() {
                    assert((a@ + b@)[i as int] == a@[i as int]);
                    assert((a@ + b@)[a@.len() + j] == b@[j as int]);
                }
            }
            r.push(a[i]);
            assert(a@.subrange(0, i + 1) == a@.subrange(0, i as int).push(a@[i as int]));
            i = i + 1;
        } else {
            proof {
                if in_order && i < a.len() {
                    assert((a@ + b@)[i as int] == a@[i as int]);
                    assert((a@ + b@)[a@.len() + j] == b@[j as int]);
                }
            }
            r.push(b[j]);
            assert(b@.subrange(0, j + 1) == b@.subrange(0, j as int).push(b@[j as int]));
            j = j + 1;
        }
    }
    assert(a@.subrange(0, i as int) == a@);
    assert(b@.subrange(0, j as int) == b@);
    r
}

/// Sorted copy of `v[lo..hi]`.
fn sort_range(v: &Vec<Sample>, lo: usize, hi: usize) -> (r: Vec<Sample>)
    requires
        lo <= hi <= v.len(),
    ensures
        sorted_by_latency(r@),
        r@.to_multiset() == v@.subrange(lo as int, hi as int).to_multiset(),
        sorted_by_latency(v@.subrange(lo as int, hi as int)) ==> r@ == v@.subrange(
            lo as int,
            hi as int,
        ),
    decreases hi - lo,
{
    if hi - lo <= 1 {
        let mut r: Vec<Sample> = Vec::new();
        if hi > lo {
            r.push(v[lo]);
        }
        assert(r@ == v@.subrange(lo as int, hi as int));
        r
    } else {
        let mid: usize = lo + (hi - lo) / 2;
        let left = sort_range(v, lo, mid);
        let right = sort_range(v, mid, hi);
        let ghost whole = v@.subrange(lo as int, hi as int);
        let ghost l = v@.subrange(lo as int, mid as int);
        let ghost rr = v@.subrange(mid as int, hi as int);
        assert(whole == l + rr);
        proof {
            vstd::seq_lib::lemma_multiset_commutative(l, rr);
            if sorted_by_latency(whole) {
                assert forall|i: int, j: int| 0 <= i <= j < l.len() implies l[i].latency_nanos
                    <= l[j].latency_nanos by {
                    assert(l[i] == whole[i] && l[j] == whole[j]);
                }
                assert forall|i: int, j: int| 0 <= i <= j < rr.len() implies rr[i].latency_nanos
                    <= rr[j].latency_nanos by {
                    assert(rr[i] == whole[i + l.len()] && rr[j] == whole[j + l.len()]);
                }
            }
        }
        merge(&left, &right)
    }
}

/// Orders the samples by ascending latency.
///
/// The sort is stable, so an already ordered sequence is left exactly as it
/// was; no sample is lost or duplicated.
pub fn sort_by_latency(v: &mut Vec<Sample>)
    ensures
        sorted_by_latency(final(v)@),
        final(v)@.to_multiset() == old(v)@.to_multiset(),
        sorted_by_latency(old(v)@) ==> final(v)@ == old(v)@,
{
    let n = v.len();
    let sorted = sort_range(v, 0, n);
    assert(v@.subrange(0, n as int) == v@);
    *v = sorted;
}

} // verus!
