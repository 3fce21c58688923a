use racegate::hal::gate::GateState;
use racegate::svc::clock::CoordinatedInstant;
use racegate::svc::race_node::CoordinatorBeacon;
use racegate::svc::race_node::GateBeacon;
use racegate::svc::race_node::NodeAddress;
use racegate::svc::race_node::RaceNodeMessage;
use racegate::svc::transport::update_gate;
use racegate::svc::transport::ExpOpt;
use racegate::svc::transport::NodesState;
use racegate::svc::transport::COORDINATOR_BEACON_TIMEOUT_MS;

#[test]
fn test_coordinator_time_fresh_at_40_ms_gone_at_60_ms() {
    // A beacon set at wall time T with the 50 ms TTL reads back at T+40 and
    // is gone at T+60.
    let t: u64 = 1_000;
    let e = ExpOpt::new_with_duration(
        CoordinatedInstant::from_millis(123),
        COORDINATOR_BEACON_TIMEOUT_MS,
        t,
    );
    assert_eq!(
        e.into_option(t + 40),
        Some(CoordinatedInstant::from_millis(123))
    );
    assert_eq!(e.into_option(t + 60), None);
}

#[test]
fn test_exp_opt_without_expiration_never_expires() {
    let e = ExpOpt {
        value: Some(7u64),
        expiration: None,
    };
    assert_eq!(e.into_option(u64::MAX), Some(7));
    let empty: ExpOpt<u64> = ExpOpt::default();
    assert_eq!(empty.into_option(0), None);
}

#[test]
fn test_apply_coordinator_beacon_records_time_and_arrival() {
    let mut state = NodesState::default();
    let msg = RaceNodeMessage::CoordinatorBeacon(CoordinatorBeacon {
        time: CoordinatedInstant::from_millis(9_000),
    });
    state.apply_message(&msg, 2_000);
    assert_eq!(
        state.coordinator_time(2_040),
        Some(CoordinatedInstant::from_millis(9_000))
    );
    assert_eq!(state.coordinator_time(2_060), None);
    assert_eq!(state.time_since_coordinator_beacon(2_500), 500);
}

#[test]
fn test_time_since_coordinator_beacon_without_beacon_is_max() {
    let state = NodesState::default();
    assert_eq!(state.time_since_coordinator_beacon(5_000), u64::MAX);
}

#[test]
fn test_apply_gate_beacon_stamps_with_known_coordinator_time() {
    let mut state = NodesState::default();
    state.apply_message(
        &RaceNodeMessage::CoordinatorBeacon(CoordinatorBeacon {
            time: CoordinatedInstant::from_millis(9_000),
        }),
        2_000,
    );
    state.apply_message(
        &RaceNodeMessage::GateBeacon(GateBeacon {
            addr: NodeAddress::start(),
            state: GateState::Active,
            last_activation_time: Some(CoordinatedInstant::from_millis(8_500)),
        }),
        2_010,
    );
    let gates = state.gates;
    let start = gates.start_gate();
    assert!(start.active);
    assert_eq!(
        start.last_activation_time,
        Some(CoordinatedInstant::from_millis(8_500))
    );
    assert_eq!(
        start.last_beacon_time,
        Some(CoordinatedInstant::from_millis(9_000))
    );
}

#[test]
fn test_apply_gate_beacon_with_stale_coordinator_time_stamps_none() {
    let mut state = NodesState::default();
    state.apply_message(
        &RaceNodeMessage::CoordinatorBeacon(CoordinatorBeacon {
            time: CoordinatedInstant::from_millis(9_000),
        }),
        2_000,
    );
    // This gate beacon arrives after the 50 ms freshness window.
    state.apply_message(
        &RaceNodeMessage::GateBeacon(GateBeacon {
            addr: NodeAddress::finish(),
            state: GateState::Inactive,
            last_activation_time: None,
        }),
        2_100,
    );
    assert_eq!(state.gates.finish_gate().last_beacon_time, None);
}

#[test]
fn test_update_gate_ignores_addresses_without_slot() {
    let mut gates = racegate::app::gates::Gates::default();
    let before = gates;
    update_gate(
        &mut gates,
        &GateBeacon {
            addr: NodeAddress::coordinator(),
            state: GateState::Active,
            last_activation_time: None,
        },
        None,
    );
    assert!(gates == before);
    update_gate(
        &mut gates,
        &GateBeacon {
            addr: NodeAddress::from(9),
            state: GateState::Active,
            last_activation_time: None,
        },
        None,
    );
    assert!(gates == before);
}

#[test]
fn test_set_coordinator_time_is_read_back_until_its_ttl() {
    let mut state = NodesState::default();
    state.set_coordinator_time(CoordinatedInstant::from_millis(4_000), 10_000);
    assert_eq!(
        state.coordinator_time(10_100),
        Some(CoordinatedInstant::from_millis(4_000))
    );
    assert_eq!(state.coordinator_time(10_101), None);
}
