use wrk_rs::histogram::histogram;
use wrk_rs::report::{percentiles, rate_per_second, report};
use wrk_rs::sample::Sample;
use wrk_rs::sort::sort_by_latency;
use wrk_rs::stats::{mean_latency_of, percentile_index};

fn samples_of(latencies: &[u64]) -> Vec<Sample> {
    latencies.iter().map(|&l| Sample::new(l, 1)).collect()
}

fn latencies_of(s: &[Sample]) -> Vec<u64> {
    s.iter().map(|x| x.latency_nanos).collect()
}

#[test]
fn sort_orders_by_latency_and_keeps_samples() {
    let mut v = vec![Sample::new(30, 1), Sample::new(10, 2), Sample::new(20, 3), Sample::new(10, 4)];
    sort_by_latency(&mut v);
    assert_eq!(latencies_of(&v), vec![10, 10, 20, 30]);
    let mut bytes: Vec<u32> = v.iter().map(|x| x.byte_count).collect();
    bytes.sort();
    assert_eq!(bytes, vec![1, 2, 3, 4]);
}

#[test]
fn sorting_a_sorted_run_changes_nothing() {
    let mut v = vec![Sample::new(5, 9), Sample::new(5, 1), Sample::new(7, 3), Sample::new(7, 2)];
    let before = v.clone();
    sort_by_latency(&mut v);
    assert_eq!(v, before);
    sort_by_latency(&mut v);
    assert_eq!(v, before);
}

#[test]
fn sort_of_empty_and_large_runs() {
    let mut empty: Vec<Sample> = Vec::new();
    sort_by_latency(&mut empty);
    assert!(empty.is_empty());
    let mut v: Vec<Sample> = (0..1000u64).map(|i| Sample::new((i * 7919) % 1000, 0)).collect();
    sort_by_latency(&mut v);
    assert_eq!(latencies_of(&v), (0..1000u64).collect::<Vec<u64>>());
}

#[test]
fn percentile_index_stays_in_bounds() {
    assert_eq!(percentile_index(1, 99), 0);
    assert_eq!(percentile_index(1, 10), 0);
    assert_eq!(percentile_index(100, 50), 50);
    assert_eq!(percentile_index(100, 99), 99);
    assert_eq!(percentile_index(7, 25), 1);
    assert_eq!(percentile_index(10, 100), 9);
    for total in 1..300usize {
        for p in 10..100u64 {
            let i = percentile_index(total, p);
            assert!(i < total);
            assert_eq!(i, total * p as usize / 100);
        }
    }
}

#[test]
fn percentiles_pick_nearest_rank() {
    let v = samples_of(&(0..100u64).collect::<Vec<u64>>());
    let p = percentiles(&v);
    let got: Vec<(u64, u64)> = p.iter().map(|x| (x.percent, x.latency_nanos)).collect();
    assert_eq!(got, vec![(10, 10), (25, 25), (50, 50), (75, 75), (90, 90), (95, 95), (99, 99)]);
}

#[test]
fn mean_is_truncated_and_between_extremes() {
    let v = samples_of(&[1, 2, 4]);
    assert_eq!(mean_latency_of(&v), 2);
    let r = report(samples_of(&[9, 3, 3, 100]), 1_000_000_000);
    let st = r.latency.unwrap();
    assert_eq!(st.mean_nanos, 28);
    assert!(st.min_nanos <= st.mean_nanos && st.mean_nanos <= st.max_nanos);
    assert_eq!((st.min_nanos, st.max_nanos), (3, 100));
}

#[test]
fn mean_of_huge_latencies_does_not_overflow() {
    let v = samples_of(&[u64::MAX, u64::MAX, u64::MAX - 3]);
    assert_eq!(mean_latency_of(&v), u64::MAX - 1);
}

#[test]
fn histogram_consumes_each_sample_once() {
    let v = samples_of(&[0, 10, 20, 30, 40, 50, 60, 70, 80, 90, 100]);
    let h = histogram(&v);
    let uppers: Vec<u64> = h.iter().map(|b| b.upper_nanos).collect();
    assert_eq!(uppers, vec![0, 10, 20, 30, 40, 50, 60, 70, 80, 90, 100]);
    assert!(h.iter().all(|b| b.count == 1));
}

#[test]
fn histogram_counts_sum_to_total() {
    let v = samples_of(&[3, 5, 5, 8, 13, 21, 34, 55, 89, 144, 144, 200]);
    let h = histogram(&v);
    assert_eq!(h.len(), 11);
    assert_eq!(h.iter().map(|b| b.count).sum::<usize>(), v.len());
    let uppers: Vec<u64> = h.iter().map(|b| b.upper_nanos).collect();
    assert_eq!(uppers, vec![3, 22, 42, 62, 81, 101, 121, 140, 160, 180, 200]);
    let counts: Vec<usize> = h.iter().map(|b| b.count).collect();
    assert_eq!(counts, vec![1, 5, 1, 1, 0, 1, 0, 0, 2, 0, 1]);
}

#[test]
fn histogram_of_identical_latencies_uses_first_bucket() {
    let v = samples_of(&[42, 42, 42, 42]);
    let h = histogram(&v);
    assert_eq!(h[0].count, 4);
    assert!(h[1..].iter().all(|b| b.count == 0 && b.upper_nanos == 42));
}

#[test]
fn throughput_truncates() {
    let r = report(samples_of(&vec![7; 1000]), 5_000_000_000);
    assert_eq!(r.requests_per_sec, 200);
    let r = report(samples_of(&vec![7; 1004]), 5_000_000_000);
    assert_eq!(r.requests_per_sec, 200);
    assert_eq!(rate_per_second(3, 2_000_000_000), 1);
    assert_eq!(rate_per_second(10, 0), 0);
}

#[test]
fn data_rate_in_decimal_megabytes() {
    let v: Vec<Sample> = (0..4u64).map(|i| Sample::new(i, 1_250_000)).collect();
    let r = report(v, 2_000_000_000);
    assert_eq!(r.total_bytes, 5_000_000);
    assert_eq!(r.bytes_per_sec, 2_500_000);
    assert_eq!(r.megabytes_per_sec(), (2, 500_000));
}

#[test]
fn empty_run_reports_no_data() {
    let r = report(Vec::new(), 5_000_000_000);
    assert_eq!(r.count, 0);
    assert_eq!(r.total_bytes, 0);
    assert_eq!(r.requests_per_sec, 0);
    assert!(r.latency.is_none());
}

#[test]
fn report_orders_samples_and_fills_figures() {
    let r = report(samples_of(&[40, 10, 30, 20]), 1_000_000_000);
    assert_eq!(r.count, 4);
    assert_eq!(latencies_of(&r.samples), vec![10, 20, 30, 40]);
    let st = r.latency.unwrap();
    assert_eq!(st.percentiles.len(), 7);
    assert_eq!(st.percentiles[2].latency_nanos, 30);
    assert_eq!(st.histogram.len(), 11);
    assert_eq!(st.histogram.iter().map(|b| b.count).sum::<usize>(), 4);
    assert_eq!(r.requests_per_sec, 4);
}
