//! Two producers' notification streams, interleaved as the shared state
//! would see them arrive, must lose no update: the translator is applied
//! under one lock per notification, so any interleaving of the two
//! streams is a sequence of whole steps like the one simulated here.

use openzwave_stateful::RawNotification;
use openzwave_stateful::State;
use openzwave_stateful::ValueID;
use openzwave_stateful::ValueIdentity;

fn dummy_value() -> ValueID {
    ValueID {
        identity: ValueIdentity {
            home_id: 0,
            node_id: 0,
            command_class: 0,
            instance: 0,
            genre: 0,
            value_type: 0,
            index: 0,
        },
        payload: 0,
    }
}

fn node_added(home_id: u32, node_id: u8) -> RawNotification {
    RawNotification { kind: 6, home_id, node_id, event: None, byte: 0, value: dummy_value() }
}

/// One producer's stream: 1,000 node arrivals spread over four
/// controllers of its own, 250 nodes each.
fn producer_stream(first_home: u32) -> Vec<RawNotification> {
    let mut stream = Vec::new();
    for offset in 0..4u32 {
        for node_id in 0..250u8 {
            stream.push(node_added(first_home + offset, node_id));
        }
    }
    stream
}

#[test]
fn interleaved_producers_lose_no_update() {
    let first = producer_stream(1);
    let second = producer_stream(5);
    assert_eq!(first.len(), 1000);
    assert_eq!(second.len(), 1000);

    let mut state = State::new();
    for (a, b) in first.iter().zip(second.iter()) {
        state.apply_notification(a);
        state.apply_notification(b);
    }

    // All 2,000 disjoint nodes arrived, and no grouping misses one.
    assert_eq!(state.get_nodes().len(), 2000);
    let groups = state.get_nodes_map();
    assert_eq!(groups.len(), 8);
    for (controller, group) in groups {
        assert_eq!(group.len(), 250);
        for node in group {
            assert_eq!(node.get_controller(), *controller);
        }
    }
}
