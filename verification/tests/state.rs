use apexscan::addr::{IpAddr, Ipv4Addr, Ipv6Addr};
use apexscan::scanner::state::StateTracker;

#[test]
fn tracked_probe_is_found_until_removed() {
    let mut tracker = StateTracker::new();
    let ip = IpAddr::V4(Ipv4Addr::new(192, 168, 1, 10));
    assert_eq!(tracker.active_probes(), 0);
    tracker.track_probe(ip, 80, 40001, 7);
    let p = tracker.get_probe(ip, 80, 40001).unwrap();
    assert_eq!(p.sequence, 7);
    assert_eq!(p.src_port, 40001);
    assert_eq!(p.retries, 0);
    assert!(tracker.get_probe(ip, 81, 40001).is_none());
    assert_eq!(tracker.active_probes(), 1);
    tracker.remove_probe(ip, 80, 40001);
    assert!(tracker.get_probe(ip, 80, 40001).is_none());
    assert_eq!(tracker.active_probes(), 0);
}

#[test]
fn tracking_again_replaces_the_probe() {
    let mut tracker = StateTracker::default();
    let ip = IpAddr::V4(Ipv4Addr::new(10, 0, 0, 1));
    tracker.track_probe(ip, 22, 40000, 1);
    tracker.track_probe(ip, 22, 40000, 2);
    assert_eq!(tracker.active_probes(), 1);
    assert_eq!(tracker.get_probe(ip, 22, 40000).unwrap().sequence, 2);
}

#[test]
fn addresses_of_both_families_are_kept_apart() {
    let mut tracker = StateTracker::new();
    let v4 = IpAddr::V4(Ipv4Addr::new(0, 0, 0, 1));
    let v6 = IpAddr::V6(Ipv6Addr { segments: [0, 0, 0, 0, 0, 0, 0, 1] });
    tracker.track_probe(v4, 80, 1, 10);
    tracker.track_probe(v6, 80, 1, 20);
    assert_eq!(tracker.active_probes(), 2);
    assert_eq!(tracker.get_probe(v4, 80, 1).unwrap().sequence, 10);
    assert_eq!(tracker.get_probe(v6, 80, 1).unwrap().sequence, 20);
}

#[test]
fn cleanup_forgets_old_probes_only() {
    let mut tracker = StateTracker::new();
    let ip = IpAddr::V4(Ipv4Addr::new(10, 0, 0, 2));
    tracker.track_probe(ip, 443, 40002, 3);
    tracker.cleanup_old_probes(3_600_000);
    assert_eq!(tracker.active_probes(), 1);
    tracker.cleanup_old_probes(0);
    assert_eq!(tracker.active_probes(), 0);
}

#[test]
fn cleanup_at_a_given_time_keeps_younger_probes() {
    let mut tracker = StateTracker::new();
    let ip = IpAddr::V4(Ipv4Addr::new(10, 0, 0, 3));
    tracker.track_probe_at(ip, 443, 40002, 3, 1_000_000);
    tracker.track_probe_at(ip, 80, 40003, 4, 1_800_000);
    assert_eq!(tracker.get_probe(ip, 443, 40002).unwrap().sent_at, 1_000_000);
    tracker.cleanup_probes_at(1_500_000, 1000);
    assert_eq!(tracker.active_probes(), 2);
    // At two seconds the first probe is exactly one second old: forgotten.
    tracker.cleanup_probes_at(2_000_000, 1000);
    assert!(tracker.get_probe(ip, 443, 40002).is_none());
    assert_eq!(tracker.get_probe(ip, 80, 40003).unwrap().sequence, 4);
    tracker.cleanup_probes_at(2_000_000, 0);
    assert_eq!(tracker.active_probes(), 0);
}

#[test]
fn tracker_clock_moves_forward() {
    let tracker = StateTracker::new();
    let a = tracker.clock_micros();
    let b = tracker.clock_micros();
    assert!(b >= a);
}
