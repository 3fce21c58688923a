use racegate::app::gates::Gate;
use racegate::app::gates::Gates;
use racegate::app::json::system_state_to_json;
use racegate::app::race::Race;
use racegate::app::SystemState;
use racegate::svc::clock::CoordinatedInstant;

#[test]
fn test_empty_state_document() {
    let json = system_state_to_json(&SystemState::default());
    let expected = "{\"time\":0,\"gates\":[{\"active\":false,\"last_activation_time\":null,\"last_beacon_time\":null},{\"active\":false,\"last_activation_time\":null,\"last_beacon_time\":null},{\"active\":false,\"last_activation_time\":null,\"last_beacon_time\":null},{\"active\":false,\"last_activation_time\":null,\"last_beacon_time\":null}],\"race\":{\"start_time\":null,\"finish_time\":null,\"duration_ms\":null}}";
    assert_eq!(String::from_utf8(json).unwrap(), expected);
}

#[test]
fn test_running_race_document() {
    let start = Gate {
        active: true,
        last_activation_time: Some(CoordinatedInstant::from_millis(10_000)),
        last_beacon_time: Some(CoordinatedInstant::from_millis(12_345)),
    };
    let finish = Gate {
        active: false,
        last_activation_time: Some(CoordinatedInstant::from_millis(20_000)),
        last_beacon_time: Some(CoordinatedInstant::from_millis(12_340)),
    };
    let mut race = Race::default();
    let gates = Gates::new([start, Gate::default(), Gate::default(), finish]);
    race.set_gates(&gates);
    let state = SystemState {
        time: CoordinatedInstant::from_millis(12_400),
        gates,
        race,
    };
    let json = system_state_to_json(&state);
    let expected = "{\"time\":12400,\"gates\":[{\"active\":true,\"last_activation_time\":10000,\"last_beacon_time\":12345},{\"active\":false,\"last_activation_time\":null,\"last_beacon_time\":null},{\"active\":false,\"last_activation_time\":null,\"last_beacon_time\":null},{\"active\":false,\"last_activation_time\":20000,\"last_beacon_time\":12340}],\"race\":{\"start_time\":10000,\"finish_time\":20000,\"duration_ms\":10000}}";
    assert_eq!(String::from_utf8(json).unwrap(), expected);
}

#[test]
fn test_negative_time_document() {
    let mut state = SystemState::default();
    state.time = CoordinatedInstant::from_millis(-250);
    let json = system_state_to_json(&state);
    let text = String::from_utf8(json).unwrap();
    assert!(text.starts_with("{\"time\":-250,"));
}
