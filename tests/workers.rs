use wrk_rs::report::report;
use wrk_rs::sample::Sample;
use wrk_rs::worker::{Action, Event, Phase, SampleCollector, Worker};

#[test]
fn worker_against_fixed_five_byte_responder() {
    let mut collector = SampleCollector::new();
    let mut w = Worker::new();
    assert_eq!(w.next_action(false), Action::Connect);
    w.on_event(Event::Connected);
    let mut issued = 0;
    while w.next_action(issued >= 25) == Action::Request {
        issued += 1;
        w.on_event(Event::RoundTrip(Sample::new(1000 + issued * 13 % 7, 5)));
    }
    assert_eq!(w.next_action(true), Action::Merge);
    collector.merge(w.take_samples());
    let r = report(collector.into_samples(), 1_000_000_000);
    assert!(r.count > 0);
    assert_eq!(r.count, 25);
    assert!(r.samples.iter().all(|s| s.byte_count == 5));
    let st = r.latency.unwrap();
    assert!(st.min_nanos <= st.max_nanos);
    assert_eq!(r.total_bytes, 125);
}

#[test]
fn refused_connection_yields_no_samples() {
    let mut collector = SampleCollector::new();
    let mut w = Worker::new();
    assert_eq!(w.next_action(false), Action::Connect);
    w.on_event(Event::ConnectFailed);
    assert_eq!(w.phase, Phase::Failed);
    assert_eq!(w.next_action(false), Action::Exit);
    assert_eq!(w.next_action(true), Action::Exit);
    let r = report(collector.samples.split_off(0), 1_000_000_000);
    assert_eq!(r.count, 0);
    assert!(r.latency.is_none());
}

#[test]
fn stop_flag_ends_requests_and_merges_once() {
    let mut collector = SampleCollector::new();
    let mut w = Worker::new();
    w.on_event(Event::Connected);
    assert_eq!(w.next_action(false), Action::Request);
    w.on_event(Event::RoundTrip(Sample::new(10, 3)));
    assert_eq!(w.next_action(true), Action::Merge);
    assert_ne!(w.next_action(true), Action::Request);
    collector.merge(w.take_samples());
    assert_eq!(w.phase, Phase::Merged);
    assert!(w.buffer.is_empty());
    assert_eq!(w.next_action(false), Action::Exit);
    assert_eq!(w.next_action(true), Action::Exit);
    assert_eq!(collector.samples, vec![Sample::new(10, 3)]);
}

#[test]
fn io_failure_keeps_the_loop_going() {
    let mut w = Worker::new();
    w.on_event(Event::Connected);
    w.on_event(Event::IoFailed);
    assert_eq!(w.phase, Phase::Running);
    assert!(w.buffer.is_empty());
    assert_eq!(w.next_action(false), Action::Request);
}

#[test]
fn events_out_of_place_are_ignored() {
    let mut w = Worker::new();
    w.on_event(Event::RoundTrip(Sample::new(1, 1)));
    assert_eq!(w.phase, Phase::Connecting);
    assert!(w.buffer.is_empty());
    w.on_event(Event::ConnectFailed);
    w.on_event(Event::Connected);
    assert_eq!(w.phase, Phase::Failed);
}

#[test]
fn merged_run_holds_every_round_trip() {
    let mut collector = SampleCollector::new();
    let mut expected = 0;
    for k in 0..4u64 {
        let mut w = Worker::new();
        w.on_event(Event::Connected);
        for j in 0..(k * 3 + 1) {
            w.on_event(Event::RoundTrip(Sample::new(j * 10 + k, 2)));
            if j % 2 == 0 {
                w.on_event(Event::IoFailed);
            }
            expected += 1;
        }
        collector.merge(w.take_samples());
    }
    let r = report(collector.into_samples(), 2_000_000_000);
    assert_eq!(r.count, expected);
    assert_eq!(r.count, 1 + 4 + 7 + 10);
}
