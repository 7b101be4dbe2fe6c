//! The laws the network state obeys, stated and proved once over the
//! model, so that they hold of every sequence of notifications.

use vstd::prelude::*;

use crate::codes::ControllerState;
use crate::codes::NotificationKind;
use crate::events::ZWaveNotification;
use crate::ids::Controller;
use crate::ids::Node;
use crate::state::ControllerInfo;
use crate::state::StateModel;
use crate::state::lemma_with_node_inv;
use crate::state::lemma_without_node_inv;
use crate::translate::RawNotification;
use crate::translate::expected_event;
use crate::translate::step;
use crate::translate::step_all;
use crate::translate::unknown_state_text;

verus! {

/// The empty state satisfies the model invariant, so every run of the
/// translator starts inside it.
pub proof fn lemma_empty_inv()
    ensures
        StateModel::empty().inv(),
{
}

/// Under the model invariant, the flattened node set equals the union of
/// all per-controller groupings.
pub proof fn lemma_nodes_equal_group_union(m: StateModel)
    requires
        m.inv(),
    ensures
        m.nodes == m.grouped_nodes(),
{
    assert forall|n: Node| #[trigger]
        m.grouped_nodes().contains(n) implies m.nodes.contains(n) by {
        let c = choose|c: Controller|
            m.nodes_map.dom().contains(c) && #[trigger] m.nodes_map[c].contains(n);
    }
    assert(m.nodes =~= m.grouped_nodes());
}

/// One notification preserves the model invariant, whatever its shape.
pub proof fn lemma_step_preserves_inv(m: StateModel, raw: RawNotification)
    requires
        m.inv(),
    ensures
        step(m, raw).inv(),
{
    match NotificationKind::spec_from_u8(raw.kind) {
        Some(NotificationKind::NodeAdded) => {
            lemma_with_node_inv(m, raw.spec_node());
        },
        Some(NotificationKind::NodeRemoved) => {
            lemma_without_node_inv(m, raw.spec_node());
        },
        _ => {},
    }
}

/// Every sequence of notifications preserves the model invariant, so by
/// `lemma_nodes_equal_group_union` the flattened node set equals the
/// union of the groupings after every step of every sequence.
pub proof fn lemma_step_all_preserves_inv(m: StateModel, raws: Seq<RawNotification>)
    requires
        m.inv(),
    ensures
        step_all(m, raws).inv(),
    decreases raws.len(),
{
    if raws.len() > 0 {
        lemma_step_preserves_inv(m, raws[0]);
        lemma_step_all_preserves_inv(step(m, raws[0]), raws.drop_first());
    }
}

/// Driver readiness is idempotent: a second readiness notification for
/// the same controller changes nothing, and in particular the
/// controller's info is reset to its default only by the first one.
pub proof fn lemma_driver_ready_idempotent(m: StateModel, raw: RawNotification)
    requires
        NotificationKind::spec_from_u8(raw.kind) == Some(NotificationKind::DriverReady),
    ensures
        step(step(m, raw), raw) == step(m, raw),
        step(m, raw).controllers.dom().contains(raw.spec_controller()),
        !m.controllers.dom().contains(raw.spec_controller()) ==> step(
            m,
            raw,
        ).controllers[raw.spec_controller()] == ControllerInfo::spec_default(),
        m.controllers.dom().contains(raw.spec_controller()) ==> step(m, raw) == m,
{
}

/// Last write wins: a value report followed by a second report for the
/// same identity leaves exactly one entry for that identity, holding the
/// second payload, and no other identity is touched.
pub proof fn lemma_value_upsert_last_write_wins(
    m: StateModel,
    first: RawNotification,
    second: RawNotification,
)
    requires
        NotificationKind::spec_from_u8(first.kind) == Some(NotificationKind::ValueAdded),
        NotificationKind::spec_from_u8(second.kind) == Some(NotificationKind::ValueChanged),
        first.value.identity == second.value.identity,
    ensures
        step(step(m, first), second).values == m.values.insert(
            second.value.identity,
            second.value.payload,
        ),
        step(step(m, first), second).values.dom() == m.values.dom().insert(
            second.value.identity,
        ),
        step(step(m, first), second).values[second.value.identity] == second.value.payload,
{
    assert(step(step(m, first), second).values =~= m.values.insert(
        second.value.identity,
        second.value.payload,
    ));
    assert(step(step(m, first), second).values.dom() =~= m.values.dom().insert(
        second.value.identity,
    ));
}

/// Removing a value whose identity was never seen leaves the value set
/// unchanged; it is a no-op, never an error.
pub proof fn lemma_remove_unseen_value(m: StateModel, raw: RawNotification)
    requires
        NotificationKind::spec_from_u8(raw.kind) == Some(NotificationKind::ValueRemoved),
        !m.values.dom().contains(raw.value.identity),
    ensures
        step(m, raw) == m,
{
    assert(m.values.remove(raw.value.identity) =~= m.values);
    assert(step(m, raw) =~~= m);
}

/// A controller command whose state byte is outside the table yields one
/// diagnostic event carrying the raw code and mutates nothing: no
/// controller's info is created, replaced or touched.
pub proof fn lemma_unknown_state_code_safe(
    m: StateModel,
    raw: RawNotification,
    code: u8,
    ev: ZWaveNotification,
)
    requires
        NotificationKind::spec_from_u8(raw.kind) == Some(NotificationKind::ControllerCommand),
        raw.event == Some(code),
        ControllerState::spec_from_u8(code) == None::<ControllerState>,
        expected_event(raw, ev),
    ensures
        step(m, raw) == m,
        (ev matches ZWaveNotification::Generic(msg) && msg@ == unknown_state_text(code)),
{
}

} // verus!
