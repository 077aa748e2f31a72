use bloodray::profiling::{ProfilingManager, Tracker};
use bloodray::timing::Duration;

#[test]
fn track_updates_an_existing_target_in_place() {
    let mut mgr = ProfilingManager::new();
    mgr.track("render", Duration::from_nanos(10));
    mgr.track("render", Duration::from_nanos(20));

    let records = mgr.sorted_records();
    assert_eq!(records.len(), 1);
    assert_eq!(records[0].0, "render");
    assert_eq!(records[0].1.calls, 2);
    assert_eq!(records[0].1.total_duration, Duration::from_nanos(30));
    assert_eq!(records[0].1.avg_duration, Duration::from_nanos(15));
}

#[test]
fn track_appends_each_new_target() {
    let mut mgr = ProfilingManager::new();
    mgr.track("tick", Duration::from_nanos(5));
    mgr.track("render", Duration::from_nanos(100));
    mgr.track("post", Duration::from_nanos(30));

    let records = mgr.sorted_records();
    assert_eq!(records.len(), 3);
    for (_, record) in &records {
        assert_eq!(record.calls, 1);
    }
}

#[test]
fn sorted_records_come_out_most_expensive_first() {
    let mut mgr = ProfilingManager::new();
    mgr.track("tick", Duration::from_nanos(5));
    mgr.track("render", Duration::from_nanos(100));
    mgr.track("post", Duration::from_nanos(30));

    let records = mgr.sorted_records();
    assert_eq!(records[0].0, "render");
    assert_eq!(records[1].0, "post");
    assert_eq!(records[2].0, "tick");
}

#[test]
fn average_is_the_truncated_total_over_calls() {
    let mut mgr = ProfilingManager::new();
    mgr.track("tick", Duration::from_nanos(10));
    mgr.track("tick", Duration::from_nanos(10));
    mgr.track("tick", Duration::from_nanos(5));

    let records = mgr.sorted_records();
    assert_eq!(records[0].1.calls, 3);
    assert_eq!(records[0].1.total_duration, Duration::from_nanos(25));
    assert_eq!(records[0].1.avg_duration, Duration::from_nanos(8));
}

#[test]
fn tracker_remembers_its_target() {
    let tracker = Tracker::new("world gen");
    assert_eq!(tracker.target(), "world gen");
    let elapsed = tracker.elapsed();
    let later = tracker.elapsed();
    assert!(later.nanos >= elapsed.nanos);
}
