use mock_instant::global::{Instant, MockClock, SystemTime};
use std::time::Duration;

/// The system time `millis` milliseconds after the mock epoch, read from a clock
/// set there.
fn at_millis(millis: u64) -> SystemTime {
    let clock = MockClock::new();
    clock.set_system_time(Duration::from_millis(millis));
    SystemTime::now(&clock)
}

#[test]
fn global_is_thread_local() {
    let clock = MockClock::new();
    assert!(!MockClock::is_thread_local());
    assert!(!Instant::now(&clock).is_thread_local());
    assert!(!SystemTime::now(&clock).is_thread_local());
}

#[test]
fn thread_sharing() {
    let clock = MockClock::new();
    clock.set_time(Duration::ZERO);

    let start = Instant::now(&clock);

    // each worker holds its own handle to the same clock, and runs to the end
    // before the next one starts
    let first = clock.clone();
    {
        let start = Instant::now(&first);
        assert!(first.advance(Duration::from_secs(3)));
        assert_eq!(start.elapsed(&first), Some(Duration::from_secs(3)));
    }

    let second = clock.clone();
    {
        let next = Instant::now(&second);
        assert!(second.advance(Duration::from_secs(30)));
        assert_eq!(next.elapsed(&second), Some(Duration::from_secs(30)));
    }

    assert!(clock.advance(Duration::from_secs(10)));
    assert_eq!(start.elapsed(&clock).unwrap().as_secs(), 43);
}

#[test]
fn global_handles_share_one_clock() {
    let clock = MockClock::new();
    let other = clock.clone();
    let start = Instant::now(&clock);
    assert!(other.advance(Duration::from_secs(3)));
    assert!(clock.advance(Duration::from_secs(10)));
    assert_eq!(start.elapsed(&other), Some(Duration::from_secs(13)));
    assert_eq!(start.elapsed(&clock), Some(Duration::from_secs(13)));
}

#[test]
fn global_set_system_time() {
    let clock = MockClock::new();
    clock.set_system_time(Duration::from_secs(42));
    assert_eq!(clock.system_time(), Duration::from_secs(42));
    clock.set_system_time(Duration::ZERO);
    assert_eq!(clock.system_time(), Duration::ZERO);
}

#[test]
fn global_advance_system_time() {
    let clock = MockClock::new();
    for i in 0..3 {
        assert!(clock.advance_system_time(Duration::from_millis(100)));
        let time = Duration::from_millis(100 * (i + 1));
        assert_eq!(clock.system_time(), time);
    }
}

#[test]
fn global_system_time() {
    let clock = MockClock::new();
    let now = SystemTime::now(&clock);
    for i in 0..3 {
        assert!(clock.advance_system_time(Duration::from_millis(100)));
        assert_eq!(now.elapsed(&clock).unwrap(), Duration::from_millis(100 * (i + 1)));
    }
    assert!(clock.advance_system_time(Duration::from_millis(100)));
    let next = SystemTime::now(&clock);
    assert_eq!(next.duration_since(now).unwrap(), Duration::from_millis(400));
}

#[test]
fn global_system_time_methods() {
    let clock = MockClock::new();
    let system_time = SystemTime::now(&clock);
    assert!(clock.advance_system_time(Duration::from_millis(42)));

    assert_eq!(
        system_time.checked_add(Duration::from_millis(1)).unwrap(),
        at_millis(1)
    );
    assert_eq!(
        SystemTime::now(&clock).checked_add(Duration::from_millis(1)).unwrap(),
        at_millis(43)
    );
    assert!(system_time.checked_sub(Duration::from_millis(1)).is_none());
    assert_eq!(
        SystemTime::now(&clock).checked_sub(Duration::from_millis(1)).unwrap(),
        at_millis(41)
    );
    assert_eq!(
        SystemTime::now(&clock) - Duration::from_millis(1),
        at_millis(41)
    );
    assert!(SystemTime::now(&clock).checked_sub(Duration::from_millis(43)).is_none());
}

#[test]
fn global_system_time_from_std_roundtrip() {
    let std_now = std::time::SystemTime::now();
    let mock_now = SystemTime::from_std(std_now).unwrap();
    assert!(mock_now.duration_since(SystemTime::unix_epoch()).unwrap() > Duration::from_secs(1708041600));
    let roundtrip_now = mock_now.to_std().unwrap();
    assert_eq!(std_now, roundtrip_now);
}

#[test]
fn global_set_time() {
    let clock = MockClock::new();
    clock.set_time(Duration::from_secs(42));
    assert_eq!(clock.time(), Duration::from_secs(42));
    clock.set_time(Duration::ZERO);
    assert_eq!(clock.time(), Duration::ZERO);
}

#[test]
fn global_advance() {
    let clock = MockClock::new();
    for i in 0..3 {
        assert!(clock.advance(Duration::from_millis(100)));
        let time = Duration::from_millis(100 * (i + 1));
        assert_eq!(clock.time(), time);
    }
}

#[test]
fn global_advance_past_the_longest_duration_is_refused() {
    let clock = MockClock::new();
    clock.set_time(Duration::MAX);
    assert!(!clock.advance(Duration::from_nanos(1)));
    assert_eq!(clock.time(), Duration::MAX);
    clock.set_system_time(Duration::MAX);
    assert!(!clock.advance_system_time(Duration::from_secs(1)));
    assert_eq!(clock.system_time(), Duration::MAX);
}

#[test]
fn global_instant() {
    let clock = MockClock::new();
    let now = Instant::now(&clock);
    for i in 0..3 {
        assert!(clock.advance(Duration::from_millis(100)));
        assert_eq!(now.elapsed(&clock), Some(Duration::from_millis(100 * (i + 1))));
    }
    assert!(clock.advance(Duration::from_millis(100)));
    let next = Instant::now(&clock);
    assert_eq!(next.duration_since(now), Duration::from_millis(400));
}

#[test]
fn global_elapsed_after_setting_back() {
    let clock = MockClock::new();
    clock.set_time(Duration::from_secs(5));
    let now = Instant::now(&clock);
    clock.set_time(Duration::from_secs(2));
    assert_eq!(now.elapsed(&clock), None);
}

#[test]
fn global_methods() {
    let clock = MockClock::new();
    let instant = Instant::now(&clock);
    let interval = Duration::from_millis(42);
    assert!(clock.advance(interval));

    assert!(instant.checked_duration_since(Instant::now(&clock)).is_none());
    assert_eq!(Instant::now(&clock).checked_duration_since(instant).unwrap(), interval);
    assert_eq!(instant.saturating_duration_since(Instant::now(&clock)), Duration::ZERO);
    assert_eq!(Instant::now(&clock) - instant, interval);

    let other = MockClock::new();
    other.set_time(Duration::from_millis(1));
    assert_eq!(instant.checked_add(Duration::from_millis(1)).unwrap(), Instant::now(&other));
    assert_eq!(instant + Duration::from_millis(1), Instant::now(&other));
    assert_eq!(
        (instant + Duration::from_millis(1)).duration_since(instant),
        Duration::from_millis(1)
    );
    assert_eq!(
        Instant::now(&clock).checked_add(Duration::from_millis(1)).unwrap().duration_since(instant),
        Duration::from_millis(43)
    );
    assert!(instant.checked_sub(Duration::from_millis(1)).is_none());
    assert_eq!(
        Instant::now(&clock).checked_sub(Duration::from_millis(1)).unwrap().duration_since(instant),
        Duration::from_millis(41)
    );
    assert_eq!(
        (Instant::now(&clock) - Duration::from_millis(1)).duration_since(instant),
        Duration::from_millis(41)
    );
    assert!(Instant::now(&clock).checked_sub(Duration::from_millis(43)).is_none());
}

#[test]
fn global_assigning_operators() {
    let clock = MockClock::new();
    clock.set_time(Duration::from_millis(10));
    let start = Instant::now(&clock);
    let mut instant = start;
    instant += Duration::from_millis(5);
    instant -= Duration::from_millis(3);
    assert_eq!(instant.duration_since(start), Duration::from_millis(2));

    let mut system_time = SystemTime::unix_epoch();
    system_time += Duration::from_millis(7);
    system_time -= Duration::from_millis(2);
    assert_eq!(system_time, at_millis(5));
}
