use parc::time::outlasts;
use parc::time::Timer;
use parc::context::ContractContext;
use std::time::Duration;

#[test]
fn outlasts_is_strict() {
    assert!(outlasts(5, 4));
    assert!(!outlasts(4, 4));
    assert!(!outlasts(0, 1));
}

#[test]
fn long_timer_has_not_expired() {
    let t = Timer::new(Duration::from_secs(3600));
    assert_eq!(t.duration, Duration::from_secs(3600));
    assert!(!t.expired());
    assert!(!t.poll_valid());
}

#[test]
fn zero_timer_expires() {
    let t = Timer::new(Duration::from_nanos(0));
    let start = std::time::Instant::now();
    while start.elapsed() < Duration::from_millis(2) {}
    assert!(t.expired());
}
