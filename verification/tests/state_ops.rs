//! Tests of the network state's own operations and of the invariant that
//! the flattened node set equals the union of the per-controller
//! groupings, checked after every step of a mixed sequence.

use openzwave_stateful::Controller;
use openzwave_stateful::Node;
use openzwave_stateful::RawNotification;
use openzwave_stateful::State;
use openzwave_stateful::ValueID;
use openzwave_stateful::ValueIdentity;

fn dummy_value() -> ValueID {
    ValueID {
        identity: ValueIdentity {
            home_id: 0,
            node_id: 0,
            command_class: 0,
            instance: 0,
            genre: 0,
            value_type: 0,
            index: 0,
        },
        payload: 0,
    }
}

fn raw(kind: u8, home_id: u32, node_id: u8) -> RawNotification {
    RawNotification { kind, home_id, node_id, event: None, byte: 0, value: dummy_value() }
}

/// The flattened node set must equal the union of the groupings, and
/// each grouping must hold only nodes of its own controller.
fn check_nodes_equal_group_union(state: &State) {
    let mut flattened: Vec<Node> = state.get_nodes().clone();
    let mut grouped: Vec<Node> = Vec::new();
    for (controller, group) in state.get_nodes_map() {
        for node in group {
            assert_eq!(node.get_controller(), *controller);
            grouped.push(*node);
        }
    }
    flattened.sort();
    grouped.sort();
    assert_eq!(flattened, grouped);
}

#[test]
fn it_works() {
}

#[test]
fn node_set_equals_group_union_after_each_step() {
    let mut state = State::new();
    let sequence = vec![
        raw(6, 1, 5),
        raw(6, 1, 6),
        raw(6, 2, 5),
        raw(7, 1, 5),
        raw(6, 2, 9),
        raw(7, 2, 5),
        raw(7, 1, 6),
        raw(7, 2, 9),
        raw(6, 1, 5),
    ];
    check_nodes_equal_group_union(&state);
    for input in &sequence {
        state.apply_notification(input);
        check_nodes_equal_group_union(&state);
    }
    assert_eq!(state.get_nodes().len(), 1);
    assert_eq!(state.get_nodes()[0], Node { home_id: 1, node_id: 5 });
}

#[test]
fn adding_a_node_twice_keeps_one_entry() {
    let mut state = State::new();
    state.apply_notification(&raw(6, 1, 5));
    state.apply_notification(&raw(6, 1, 5));
    assert_eq!(state.get_nodes().len(), 1);
    let groups = state.get_nodes_map();
    assert_eq!(groups.len(), 1);
    assert_eq!(groups[0].0, Controller { home_id: 1 });
    assert_eq!(groups[0].1.len(), 1);
}

#[test]
fn removing_an_absent_node_is_a_noop() {
    let mut state = State::new();
    state.apply_notification(&raw(6, 1, 5));
    // Unknown node of a known controller, then a node of an unknown
    // controller: neither may fail or change anything.
    state.apply_notification(&raw(7, 1, 9));
    state.apply_notification(&raw(7, 4, 5));
    assert_eq!(state.get_nodes().len(), 1);
    assert_eq!(state.get_nodes_map().len(), 1);
    assert_eq!(state.get_nodes_map()[0].1.len(), 1);
}

#[test]
fn emptied_grouping_stays_registered() {
    let mut state = State::new();
    state.apply_notification(&raw(6, 1, 5));
    state.apply_notification(&raw(7, 1, 5));
    assert_eq!(state.get_nodes().len(), 0);
    let groups = state.get_nodes_map();
    assert_eq!(groups.len(), 1);
    assert_eq!(groups[0].0, Controller { home_id: 1 });
    assert_eq!(groups[0].1.len(), 0);
}

#[test]
fn node_new_does_not_mutate_state() {
    let mut state = State::new();
    state.apply_notification(&raw(5, 1, 5));
    assert_eq!(state.get_nodes().len(), 0);
    assert_eq!(state.get_nodes_map().len(), 0);
}

#[test]
fn value_refreshed_does_not_mutate_state() {
    let mut state = State::new();
    let mut n = raw(3, 1, 5);
    n.value = ValueID {
        identity: ValueIdentity {
            home_id: 1,
            node_id: 5,
            command_class: 0x25,
            instance: 1,
            genre: 1,
            value_type: 1,
            index: 1,
        },
        payload: 3,
    };
    state.apply_notification(&n);
    assert_eq!(state.get_values().len(), 0);
}

#[test]
fn get_controller_info_distinguishes_known_and_unknown() {
    let mut state = State::new();
    state.apply_notification(&raw(18, 9, 0));
    assert!(state.get_controller_info(&Controller { home_id: 9 }).is_some());
    assert!(state.get_controller_info(&Controller { home_id: 8 }).is_none());
}
