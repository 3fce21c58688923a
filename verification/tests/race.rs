use racegate::app::gates::Gate;
use racegate::app::gates::Gates;
use racegate::app::race::Race;
use racegate::svc::clock::CoordinatedInstant;

fn make_active_gate(time_ms: i32) -> Gate {
    let t = Some(CoordinatedInstant::from_millis(time_ms));
    Gate {
        active: true,
        last_activation_time: t,
        last_beacon_time: t,
    }
}

fn make_inactive_gate(time_ms: i32) -> Gate {
    let t = Some(CoordinatedInstant::from_millis(time_ms));
    Gate {
        active: false,
        last_activation_time: t,
        last_beacon_time: t,
    }
}

fn make_never_activated_gate() -> Gate {
    Gate {
        active: false,
        last_activation_time: None,
        last_beacon_time: None,
    }
}

#[test]
fn test_race_default() {
    let race = Race::default();
    assert_eq!(
        race,
        Race {
            start_time: None,
            finish_time: None,
            duration: None,
        }
    );
}

#[test]
fn test_race_with_start_gate_active() {
    let mut race = Race::default();
    race.set_gates(&Gates::new([
        make_active_gate(10_000),
        make_never_activated_gate(),
        make_never_activated_gate(),
        make_never_activated_gate(),
    ]));
    assert_eq!(
        race,
        Race {
            start_time: Some(CoordinatedInstant::from_millis(10_000)),
            finish_time: None,
            duration: None,
        }
    );
}

#[test]
fn test_race_with_start_and_finish_gates_active() {
    let mut race = Race::default();
    race.set_gates(&Gates::new([
        make_active_gate(10_000),
        make_never_activated_gate(),
        make_never_activated_gate(),
        make_never_activated_gate(),
    ]));
    race.set_gates(&Gates::new([
        make_active_gate(10_000),
        make_never_activated_gate(),
        make_never_activated_gate(),
        make_active_gate(20_000),
    ]));
    assert_eq!(
        race,
        Race {
            start_time: Some(CoordinatedInstant::from_millis(10_000)),
            finish_time: Some(CoordinatedInstant::from_millis(20_000)),
            duration: Some(10_000),
        }
    );
}

#[test]
fn test_race_with_start_after_finish() {
    let mut race = Race::default();
    race.set_gates(&Gates::new([
        make_active_gate(10_000),
        make_never_activated_gate(),
        make_never_activated_gate(),
        make_never_activated_gate(),
    ]));
    race.set_gates(&Gates::new([
        make_active_gate(10_000),
        make_never_activated_gate(),
        make_never_activated_gate(),
        make_active_gate(20_000),
    ]));
    race.set_gates(&Gates::new([
        make_active_gate(30_000),
        make_never_activated_gate(),
        make_never_activated_gate(),
        make_active_gate(20_000),
    ]));
    assert_eq!(
        race,
        Race {
            start_time: Some(CoordinatedInstant::from_millis(30_000)),
            finish_time: None,
            duration: None,
        }
    );
}

#[test]
fn test_race_with_two_finish_activations() {
    let mut race = Race::default();
    race.set_gates(&Gates::new([
        make_active_gate(10_000),
        make_never_activated_gate(),
        make_never_activated_gate(),
        make_never_activated_gate(),
    ]));
    race.set_gates(&Gates::new([
        make_inactive_gate(10_000),
        make_never_activated_gate(),
        make_never_activated_gate(),
        make_active_gate(20_000),
    ]));
    race.set_gates(&Gates::new([
        make_inactive_gate(10_000),
        make_never_activated_gate(),
        make_never_activated_gate(),
        make_active_gate(30_000),
    ]));

    // Even if the finish gate has been activated again, the duration is
    // calculated from the start gate activation and the first finish gate
    // activation: ten seconds.
    assert_eq!(race.duration, Some(10_000));

    assert_eq!(
        race,
        Race {
            start_time: Some(CoordinatedInstant::from_millis(10_000)),
            finish_time: Some(CoordinatedInstant::from_millis(20_000)),
            duration: Some(10_000),
        }
    );
}

#[test]
fn test_race_same_snapshot_twice_is_idempotent() {
    let snapshot = Gates::new([
        make_active_gate(10_000),
        make_never_activated_gate(),
        make_never_activated_gate(),
        make_active_gate(20_000),
    ]);
    let mut once = Race::default();
    once.set_gates(&snapshot);
    let mut twice = once;
    twice.set_gates(&snapshot);
    assert_eq!(once, twice);
}

#[test]
fn test_race_new_start_adopts_reported_finish_on_next_fold() {
    // A snapshot whose start supersedes the recorded finish while it still
    // reports a later finish activation: the first fold opens a new race,
    // the next fold adopts that finish into it.
    let mut race = Race::default();
    race.set_gates(&Gates::new([
        make_active_gate(10_000),
        make_never_activated_gate(),
        make_never_activated_gate(),
        make_active_gate(20_000),
    ]));
    let snapshot = Gates::new([
        make_active_gate(30_000),
        make_never_activated_gate(),
        make_never_activated_gate(),
        make_active_gate(40_000),
    ]);
    race.set_gates(&snapshot);
    assert_eq!(
        race,
        Race {
            start_time: Some(CoordinatedInstant::from_millis(30_000)),
            finish_time: None,
            duration: None,
        }
    );
    race.set_gates(&snapshot);
    assert_eq!(
        race,
        Race {
            start_time: Some(CoordinatedInstant::from_millis(30_000)),
            finish_time: Some(CoordinatedInstant::from_millis(40_000)),
            duration: Some(10_000),
        }
    );
}

#[test]
fn test_race_finishes_even_when_start_report_lapses() {
    // The record already holds the start; a later snapshot whose start slot
    // reports nothing but whose finish slot fired still completes the race.
    let mut race = Race::default();
    race.set_gates(&Gates::new([
        make_active_gate(10_000),
        make_never_activated_gate(),
        make_never_activated_gate(),
        make_never_activated_gate(),
    ]));
    race.set_gates(&Gates::new([
        make_never_activated_gate(),
        make_never_activated_gate(),
        make_never_activated_gate(),
        make_active_gate(20_000),
    ]));
    assert_eq!(
        race,
        Race {
            start_time: Some(CoordinatedInstant::from_millis(10_000)),
            finish_time: Some(CoordinatedInstant::from_millis(20_000)),
            duration: Some(10_000),
        }
    );
}

#[test]
fn test_race_clears_finish_before_recorded_start() {
    // A finish activation older than the recorded start never stands: it is
    // adopted and at once cleared, with no duration.
    let mut race = Race::default();
    race.set_gates(&Gates::new([
        make_active_gate(30_000),
        make_never_activated_gate(),
        make_never_activated_gate(),
        make_never_activated_gate(),
    ]));
    race.set_gates(&Gates::new([
        make_never_activated_gate(),
        make_never_activated_gate(),
        make_never_activated_gate(),
        make_active_gate(20_000),
    ]));
    assert_eq!(
        race,
        Race {
            start_time: Some(CoordinatedInstant::from_millis(30_000)),
            finish_time: None,
            duration: None,
        }
    );
}
