use tokio_mock::clock::{advance, Clock};
use tokio_mock::delay::{sleep, sleep_until};
use tokio_mock::instant::{Duration, Instant};
use tokio_mock::step::Step;

#[test]
fn sleep_boundary_is_inclusive() {
    let mut clock = Clock::new(Instant::from_nanos(0));
    let delay = sleep(&clock, Duration::from_nanos(100));

    assert!(matches!(delay.poll(&clock), Step::Suspended));
    assert!(!delay.is_elapsed(&clock));

    clock.advance(Duration::from_nanos(99));
    assert!(matches!(delay.poll(&clock), Step::Suspended));

    clock.advance(Duration::from_nanos(1));
    assert!(delay.is_elapsed(&clock));
    assert!(matches!(delay.poll(&clock), Step::Completed(())));
}

#[test]
fn sleep_deadline_fixed_at_construction() {
    let mut clock = Clock::new(Instant::from_nanos(50));
    let delay = sleep(&clock, Duration::from_nanos(10));

    // Advancing after construction does not move the deadline.
    clock.advance(Duration::from_nanos(3));
    assert_eq!(delay.deadline().as_nanos(), 60);
    clock.advance(Duration::from_nanos(7));
    assert!(matches!(delay.poll(&clock), Step::Completed(())));
}

#[test]
fn sleep_until_uses_the_given_deadline() {
    let mut clock = Clock::new(Instant::from_nanos(0));
    let delay = sleep_until(Instant::from_nanos(25));

    assert_eq!(delay.deadline().as_nanos(), 25);
    clock.advance(Duration::from_nanos(24));
    assert!(matches!(delay.poll(&clock), Step::Suspended));
    clock.advance(Duration::from_nanos(1));
    assert!(matches!(delay.poll(&clock), Step::Completed(())));
}

#[test]
fn clock_moves_only_on_advance() {
    let mut clock = Clock::new(Instant::from_nanos(7));

    assert_eq!(clock.now().as_nanos(), 7);
    assert_eq!(clock.now().as_nanos(), 7);
    advance(&mut clock, Duration::from_nanos(0));
    assert_eq!(clock.now().as_nanos(), 7);
    advance(&mut clock, Duration::from_nanos(5));
    assert_eq!(clock.now().as_nanos(), 12);
}

#[test]
fn duration_constructors() {
    assert_eq!(Duration::from_nanos(17).as_nanos(), 17);
    assert_eq!(Duration::from_micros(7).as_nanos(), 7_000);
    assert_eq!(Duration::from_millis(3).as_nanos(), 3_000_000);
    assert_eq!(Duration::from_secs(2).as_nanos(), 2_000_000_000);
}

#[test]
fn instant_differences() {
    let early = Instant::from_nanos(10);
    let late = Instant::from_nanos(35);

    assert_eq!(late.duration_since(early).as_nanos(), 25);
    assert_eq!(early.duration_since(late).as_nanos(), 0);
    assert_eq!(late.saturating_duration_since(early).as_nanos(), 25);
    assert_eq!(early.saturating_duration_since(late).as_nanos(), 0);
    assert_eq!(late.checked_duration_since(early).map(|d| d.as_nanos()), Some(25));
    assert!(early.checked_duration_since(late).is_none());
}

#[test]
fn instant_checked_arithmetic() {
    let t = Instant::from_nanos(100);

    assert_eq!(t.checked_add(Duration::from_nanos(11)).map(|t| t.as_nanos()), Some(111));
    assert!(Instant::from_nanos(u128::MAX).checked_add(Duration::from_nanos(1)).is_none());
    assert_eq!(t.checked_sub(Duration::from_nanos(40)).map(|t| t.as_nanos()), Some(60));
    assert!(t.checked_sub(Duration::from_nanos(101)).is_none());
    assert_eq!(
        Instant::from_nanos(u128::MAX).saturating_add(Duration::from_nanos(9)).as_nanos(),
        u128::MAX
    );
}

#[test]
fn instant_now_and_elapsed() {
    let mut clock = Clock::new(Instant::from_nanos(0));
    let start = Instant::now(&clock);

    clock.advance(Duration::from_nanos(42));
    assert_eq!(start.elapsed(&clock).as_nanos(), 42);
    assert_eq!(Instant::now(&clock).as_nanos(), 42);
    // A point after the clock's current time has a zero elapsed span.
    assert_eq!(Instant::from_nanos(100).elapsed(&clock).as_nanos(), 0);
}

#[test]
fn advance_saturates_at_the_top() {
    let mut clock = Clock::new(Instant::from_nanos(u128::MAX - 1));

    clock.advance(Duration::from_nanos(5));
    assert_eq!(clock.now().as_nanos(), u128::MAX);
    clock.advance(Duration::from_nanos(5));
    assert_eq!(clock.now().as_nanos(), u128::MAX);
}
