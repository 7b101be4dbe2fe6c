//! Scenario tests for the notification translator: controller lifecycle,
//! the two-level controller-command decode, value upserts, and the
//! end-to-end event sequence.

use openzwave_stateful::Controller;
use openzwave_stateful::ControllerError;
use openzwave_stateful::ControllerState;
use openzwave_stateful::Node;
use openzwave_stateful::RawNotification;
use openzwave_stateful::State;
use openzwave_stateful::ValueID;
use openzwave_stateful::ValueIdentity;
use openzwave_stateful::ZWaveNotification;

fn dummy_value() -> ValueID {
    ValueID {
        identity: ValueIdentity {
            home_id: 0,
            node_id: 0,
            command_class: 0,
            instance: 0,
            genre: 0,
            value_type: 0,
            index: 0,
        },
        payload: 0,
    }
}

fn raw(kind: u8, home_id: u32, node_id: u8) -> RawNotification {
    RawNotification { kind, home_id, node_id, event: None, byte: 0, value: dummy_value() }
}

fn value_raw(kind: u8, value: ValueID) -> RawNotification {
    RawNotification {
        kind,
        home_id: value.identity.home_id,
        node_id: value.identity.node_id,
        event: None,
        byte: 0,
        value,
    }
}

fn l1_value(payload: u64) -> ValueID {
    ValueID {
        identity: ValueIdentity {
            home_id: 1,
            node_id: 5,
            command_class: 0x25,
            instance: 1,
            genre: 1,
            value_type: 1,
            index: 1,
        },
        payload,
    }
}

#[test]
fn driver_ready_registers_controller() {
    let mut state = State::new();
    let ev = state.apply_notification(&raw(18, 7, 0));
    assert_eq!(ev, ZWaveNotification::ControllerReady(Controller { home_id: 7 }));
    let info = state.get_controller_info(&Controller { home_id: 7 }).expect("controller entry");
    assert_eq!(info.last_state, ControllerState::Normal);
    assert_eq!(info.last_error, ControllerError::NoError);
    assert_eq!(state.get_controllers().len(), 1);
}

#[test]
fn driver_ready_twice_is_idempotent() {
    let mut state = State::new();
    state.apply_notification(&raw(18, 7, 0));
    // A controller command moves the info away from its default.
    let mut cmd = raw(28, 7, 0);
    cmd.event = Some(1);
    state.apply_notification(&cmd);
    assert_eq!(
        state.get_controller_info(&Controller { home_id: 7 }).unwrap().last_state,
        ControllerState::Starting
    );
    // A second readiness notification neither duplicates nor resets.
    state.apply_notification(&raw(18, 7, 0));
    assert_eq!(state.get_controllers().len(), 1);
    assert_eq!(
        state.get_controller_info(&Controller { home_id: 7 }).unwrap().last_state,
        ControllerState::Starting
    );
}

#[test]
fn controller_command_updates_info() {
    let mut state = State::new();
    let mut cmd = raw(28, 3, 0);
    cmd.event = Some(6);
    let ev = state.apply_notification(&cmd);
    assert_eq!(ev, ZWaveNotification::StateInProgress(Controller { home_id: 3 }));
    let info = state.get_controller_info(&Controller { home_id: 3 }).unwrap();
    assert_eq!(info.last_state, ControllerState::InProgress);
    assert_eq!(info.last_error, ControllerError::NoError);
}

#[test]
fn controller_command_error_updates_error() {
    let mut state = State::new();
    let mut cmd = raw(28, 3, 0);
    cmd.event = Some(3);
    cmd.byte = 9;
    let ev = state.apply_notification(&cmd);
    assert_eq!(ev, ZWaveNotification::ErrorBusy(Controller { home_id: 3 }));
    let info = state.get_controller_info(&Controller { home_id: 3 }).unwrap();
    assert_eq!(info.last_state, ControllerState::Error);
    assert_eq!(info.last_error, ControllerError::Busy);
}

#[test]
fn unknown_state_code_yields_one_diagnostic_and_no_mutation() {
    let mut state = State::new();
    let mut cmd = raw(28, 3, 0);
    cmd.event = Some(99);
    let ev = state.apply_notification(&cmd);
    assert_eq!(ev, ZWaveNotification::Generic("Unknown ControllerState: 99".to_string()));
    assert!(state.get_controller_info(&Controller { home_id: 3 }).is_none());
    assert_eq!(state.get_controllers().len(), 0);
}

#[test]
fn unknown_error_code_short_circuits_without_mutation() {
    let mut state = State::new();
    let mut cmd = raw(28, 3, 0);
    cmd.event = Some(3);
    cmd.byte = 77;
    let ev = state.apply_notification(&cmd);
    assert_eq!(ev, ZWaveNotification::Generic("Unknown ControllerError: 77".to_string()));
    assert!(state.get_controller_info(&Controller { home_id: 3 }).is_none());
}

#[test]
fn controller_command_without_state_code_is_diagnosed() {
    let mut state = State::new();
    let cmd = raw(28, 3, 0);
    let ev = state.apply_notification(&cmd);
    assert_eq!(
        ev,
        ZWaveNotification::Generic(
            "ControllerCommand without a state code: home 3".to_string()
        )
    );
    assert_eq!(state.get_controllers().len(), 0);
}

#[test]
fn value_added_then_changed_keeps_one_entry_last_write_wins() {
    let mut state = State::new();
    state.apply_notification(&value_raw(0, l1_value(0xA)));
    let ev = state.apply_notification(&value_raw(2, l1_value(0xB)));
    assert_eq!(ev, ZWaveNotification::ValueChanged(l1_value(0xB)));
    let values = state.get_values();
    assert_eq!(values.len(), 1);
    assert_eq!(values[0].identity, l1_value(0).identity);
    assert_eq!(values[0].payload, 0xB);
}

#[test]
fn value_removed_for_unseen_identity_is_a_noop() {
    let mut state = State::new();
    state.apply_notification(&value_raw(0, l1_value(0xA)));
    let mut other = l1_value(0xA);
    other.identity.index = 9;
    let ev = state.apply_notification(&value_raw(1, other));
    assert_eq!(ev, ZWaveNotification::ValueRemoved(other));
    assert_eq!(state.get_values().len(), 1);
    assert_eq!(state.get_values()[0].payload, 0xA);
}

#[test]
fn notification_subcodes_map_to_node_events() {
    let mut state = State::new();
    let node = Node { home_id: 1, node_id: 5 };
    let mut n = raw(26, 1, 5);
    n.byte = 0;
    assert_eq!(state.apply_notification(&n), ZWaveNotification::NotificationMsgComplete(node));
    n.byte = 1;
    assert_eq!(state.apply_notification(&n), ZWaveNotification::NotificationTimeout(node));
    n.byte = 2;
    assert_eq!(state.apply_notification(&n), ZWaveNotification::NotificationNoOperation(node));
    n.byte = 3;
    assert_eq!(state.apply_notification(&n), ZWaveNotification::NotificationAwake(node));
    n.byte = 4;
    assert_eq!(state.apply_notification(&n), ZWaveNotification::NotificationSleep(node));
    n.byte = 5;
    assert_eq!(state.apply_notification(&n), ZWaveNotification::NotificationDead(node));
    n.byte = 6;
    assert_eq!(state.apply_notification(&n), ZWaveNotification::NotificationAlive(node));
}

#[test]
fn unknown_subcode_diagnostic_names_the_node() {
    let mut state = State::new();
    let mut n = raw(26, 1, 5);
    n.byte = 9;
    let ev = state.apply_notification(&n);
    assert_eq!(
        ev,
        ZWaveNotification::Generic("Unknown NotificationCode 9 for home 1 node 5".to_string())
    );
}

#[test]
fn unknown_kind_is_surfaced_not_dropped() {
    let mut state = State::new();
    // Kind 27 (driver removal) is outside this library's table.
    let ev = state.apply_notification(&raw(27, 1, 0));
    assert_eq!(
        ev,
        ZWaveNotification::Generic("Unknown notification: kind 27 home 1 node 0".to_string())
    );
    // Emit-only kinds leave the state alone too.
    assert_eq!(state.get_controllers().len(), 0);
    assert_eq!(state.get_nodes().len(), 0);
    assert_eq!(state.get_values().len(), 0);
}

#[test]
fn node_event_carries_its_byte_payload() {
    let mut state = State::new();
    let mut n = raw(10, 1, 5);
    n.byte = 0x42;
    let ev = state.apply_notification(&n);
    assert_eq!(ev, ZWaveNotification::NodeEvent(Node { home_id: 1, node_id: 5 }, 0x42));
    assert_eq!(state.get_nodes().len(), 0);
}

#[test]
fn end_to_end_scenario() {
    let mut state = State::new();
    let inputs = vec![
        raw(18, 1, 0),
        raw(6, 1, 5),
        value_raw(0, l1_value(0xA)),
        value_raw(2, l1_value(0xB)),
        raw(7, 1, 5),
    ];
    let events = state.apply_all(&inputs);
    let node = Node { home_id: 1, node_id: 5 };
    assert_eq!(
        events,
        vec![
            ZWaveNotification::ControllerReady(Controller { home_id: 1 }),
            ZWaveNotification::NodeAdded(node),
            ZWaveNotification::ValueAdded(l1_value(0xA)),
            ZWaveNotification::ValueChanged(l1_value(0xB)),
            ZWaveNotification::NodeRemoved(node),
        ]
    );
    // Final state: controller 1 present, zero nodes, and the value still
    // present with the changed payload (values survive node removal).
    assert_eq!(state.get_controllers().len(), 1);
    assert!(state.get_controller_info(&Controller { home_id: 1 }).is_some());
    assert_eq!(state.get_nodes().len(), 0);
    let values = state.get_values();
    assert_eq!(values.len(), 1);
    assert_eq!(values[0].identity, l1_value(0).identity);
    assert_eq!(values[0].payload, 0xB);
}
