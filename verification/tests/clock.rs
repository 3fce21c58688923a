use racegate::svc::clock::calculate_clock_offset;
use racegate::svc::clock::coordinated_from_local;
use racegate::svc::clock::CoordinatedClock;
use racegate::svc::clock::CoordinatedInstant;
use racegate::svc::clock::LocalClock;
use racegate::svc::clock::LocalInstant;
use racegate::svc::clock::LocalOffset;

#[test]
fn test_calculate_clock_offset_when_coordinator_started_before_gate() {
    let coord_time = LocalInstant::from_millis(60_000);
    let local_time = LocalInstant::from_millis(10_000);
    let offset = calculate_clock_offset(coord_time, local_time);
    assert_eq!(offset, LocalOffset::from_millis(50_000));
}

#[test]
fn test_calculate_clock_offset_when_coordinator_started_after_gate() {
    let coord_time = LocalInstant::from_millis(60_000);
    let local_time = LocalInstant::from_millis(110_000);
    let offset = calculate_clock_offset(coord_time, local_time);
    assert_eq!(offset, LocalOffset::from_millis(-50_000));
}

#[test]
fn test_offset_reconstructs_coordinator_time() {
    let offset = calculate_clock_offset(
        LocalInstant::from_millis(60_000),
        LocalInstant::from_millis(10_000),
    );
    assert_eq!(offset.as_millis() + 10_000, 60_000);
}

#[test]
fn test_coordinated_time_with_coordinator_ahead() {
    // Coordinator at 60 s while a gate's clock reads 10 s: the offset is
    // +50 s, and a reading ten milliseconds later lands at 60.01 s.
    let offset = calculate_clock_offset(
        LocalInstant::from_millis(60_000),
        LocalInstant::from_millis(10_000),
    );
    assert_eq!(offset, LocalOffset::from_millis(50_000));
    let t = coordinated_from_local(LocalInstant::from_millis(10_010), offset);
    assert_eq!(t, Some(CoordinatedInstant::from_millis(60_010)));
}

#[test]
fn test_coordinated_from_local_rejects_overflow() {
    let t = coordinated_from_local(
        LocalInstant::from_millis(i32::MAX),
        LocalOffset::from_millis(1),
    );
    assert_eq!(t, None);
    let t = coordinated_from_local(
        LocalInstant::from_millis(i32::MIN),
        LocalOffset::from_millis(-1),
    );
    assert_eq!(t, None);
}

#[test]
fn test_local_clock_starts_near_zero() {
    let clock = LocalClock::default();
    let t = clock.now().expect("a fresh clock must read");
    assert!(t.as_millis() >= 0);
    assert!(t.as_millis() < 60_000);
}

#[test]
fn test_coordinated_clock_applies_offset() {
    let clock = LocalClock::default();
    let coordinated = CoordinatedClock::new(&clock, LocalOffset::from_millis(50_000));
    let t = coordinated.now().expect("a fresh clock must read");
    assert!(t.as_millis() >= 50_000);
    assert!(t.as_millis() < 110_000);
}

#[test]
fn test_instant_accessors_round_trip() {
    assert_eq!(LocalInstant::from_millis(123).as_millis(), 123);
    assert_eq!(CoordinatedInstant::from_millis(-7).as_millis(), -7);
    assert_eq!(LocalOffset::from_millis(0).as_millis(), 0);
    assert_eq!(LocalInstant::default().as_millis(), 0);
}

#[test]
fn test_elapsed_millis_range_check() {
    assert_eq!(
        LocalInstant::checked_from_elapsed_millis(0),
        Some(LocalInstant::from_millis(0))
    );
    assert_eq!(
        LocalInstant::checked_from_elapsed_millis(2_147_483_646),
        Some(LocalInstant::from_millis(2_147_483_646))
    );
    // The clock range ends after roughly 24 days of milliseconds.
    assert_eq!(
        LocalInstant::checked_from_elapsed_millis(2_147_483_647),
        None
    );
    assert_eq!(LocalInstant::checked_from_elapsed_millis(u128::MAX), None);
}
