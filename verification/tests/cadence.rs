use dashboard::cadence::{
    Cadence, Due, Scheduler, INPUT_POLL_MS, SERVER_INTERVAL_MS, SYSTEM_INTERVAL_MS,
};

#[test]
fn usual_intervals() {
    assert_eq!(SYSTEM_INTERVAL_MS, 500);
    assert_eq!(SERVER_INTERVAL_MS, 30_000);
    assert_eq!(INPUT_POLL_MS, 16);
}

#[test]
fn cadence_rests_until_its_interval_has_passed() {
    let mut c = Cadence::new(100, 500);
    assert!(!c.maybe_fire(100));
    assert!(!c.maybe_fire(599));
    assert_eq!(c, Cadence { last_fired: 100, interval: 500 });
}

#[test]
fn cadence_fires_when_its_interval_has_passed() {
    let mut c = Cadence::new(100, 500);
    assert!(c.maybe_fire(600));
    assert_eq!(c, Cadence { last_fired: 600, interval: 500 });
}

#[test]
fn cadence_is_armed_again_at_the_time_of_firing() {
    let mut c = Cadence::new(0, 500);
    assert!(c.maybe_fire(730));
    assert_eq!(c.last_fired, 730);
    assert!(!c.maybe_fire(1_000));
    assert!(!c.maybe_fire(1_229));
    assert!(c.maybe_fire(1_230));
    assert_eq!(c.last_fired, 1_230);
}

#[test]
fn cadence_does_not_fire_before_its_own_time() {
    let mut c = Cadence::new(1_000, 0);
    assert!(!c.maybe_fire(999));
    assert_eq!(c.last_fired, 1_000);
    assert!(c.maybe_fire(1_000));
}

#[test]
fn cadence_without_interval_fires_every_time() {
    let mut c = Cadence::new(5, 0);
    assert!(c.maybe_fire(5));
    assert!(c.maybe_fire(5));
    assert!(c.maybe_fire(6));
    assert_eq!(c.last_fired, 6);
}

#[test]
fn cadence_at_the_end_of_time() {
    let mut c = Cadence::new(u64::MAX - 10, 500);
    assert!(!c.maybe_fire(u64::MAX));
    let mut d = Cadence::new(0, u64::MAX);
    assert!(!d.maybe_fire(u64::MAX - 1));
    assert!(d.maybe_fire(u64::MAX));
}

#[test]
fn scheduler_starts_with_the_usual_intervals() {
    let s = Scheduler::new(42);
    assert_eq!(s.system, Cadence { last_fired: 42, interval: 500 });
    assert_eq!(s.servers, Cadence { last_fired: 42, interval: 30_000 });
}

#[test]
fn scheduler_fires_each_refresh_on_its_own() {
    let mut s = Scheduler::new(0);
    assert_eq!(s.tick(499), Due { system: false, servers: false });
    assert_eq!(s.tick(500), Due { system: true, servers: false });
    assert_eq!(s.tick(999), Due { system: false, servers: false });
    assert_eq!(s.tick(29_999), Due { system: true, servers: false });
    assert_eq!(s.tick(30_000), Due { system: false, servers: true });
    assert_eq!(s.servers.last_fired, 30_000);
    assert_eq!(s.system.last_fired, 29_999);
    assert_eq!(s.tick(60_000), Due { system: true, servers: true });
}

#[test]
fn scheduler_takes_other_intervals() {
    let mut s = Scheduler::with_intervals(10, 3_000, 7_000);
    assert_eq!(s.system, Cadence { last_fired: 10, interval: 3_000 });
    assert_eq!(s.servers, Cadence { last_fired: 10, interval: 7_000 });
    assert_eq!(s.tick(3_009), Due { system: false, servers: false });
    assert_eq!(s.tick(3_010), Due { system: true, servers: false });
    assert_eq!(s.tick(7_010), Due { system: true, servers: true });
}
