//! The notification translator: from one raw driver notification to the
//! matching state mutation and domain event.
//!
//! A raw notification arrives as plain values (a kind byte, identities,
//! optional payload bytes).  `State::apply_notification` applies the one
//! state mutation the notification calls for and returns the one domain
//! event it translates to; the caller forwards the event once the call
//! returns, so state mutation is complete before any consumer can react
//! to the event.  Every notification shape is handled: anything the
//! translation table does not recognize becomes a `Generic` diagnostic
//! event carrying the raw codes, never a dropped notification and never
//! an error.

use vstd::prelude::*;

use crate::codes::ControllerError;
use crate::codes::ControllerState;
use crate::codes::NotificationCode;
use crate::codes::NotificationKind;
use crate::events::ZWaveNotification;
use crate::events::controller_text;
use crate::events::node_text;
use crate::events::push_controller_text;
use crate::events::push_node_text;
use crate::ids::Controller;
use crate::ids::Node;
use crate::ids::ValueID;
use crate::state::ControllerInfo;
use crate::state::State;
use crate::state::StateModel;
use crate::text::dec_rep;
use crate::text::push_dec;

verus! {

/// One raw driver notification, reduced to the plain values the
/// translator reads: the kind byte, the identities of the controller,
/// node and value it concerns, the optional event byte (the
/// controller-state code of a controller command), and the auxiliary
/// byte (a controller-error code, a node-event payload, or a
/// notification sub-code, depending on the kind).
#[derive(Clone, Copy, Debug)]
pub struct RawNotification {
    pub kind: u8,
    pub home_id: u32,
    pub node_id: u8,
    pub event: Option<u8>,
    pub byte: u8,
    pub value: ValueID,
}

impl RawNotification {
    /// The controller this notification concerns, as contracts see it.
    pub open spec fn spec_controller(self) -> Controller {
        Controller { home_id: self.home_id }
    }

    /// The node this notification concerns, as contracts see it.
    pub open spec fn spec_node(self) -> Node {
        Node { home_id: self.home_id, node_id: self.node_id }
    }

    /// The controller this notification concerns.
    pub fn get_controller(&self) -> (c: Controller)
        ensures
            c == self.spec_controller(),
    {
        Controller { home_id: self.home_id }
    }

    /// The node this notification concerns.
    pub fn get_node(&self) -> (n: Node)
        ensures
            n == self.spec_node(),
    {
        Node { home_id: self.home_id, node_id: self.node_id }
    }
}

/// Diagnostic text for a controller-state code outside the table.
pub open spec fn unknown_state_text(code: u8) -> Seq<char> {
    "Unknown ControllerState: "@ + dec_rep(code as nat)
}

/// Diagnostic text for a controller-error code outside the table.
pub open spec fn unknown_error_text(code: u8) -> Seq<char> {
    "Unknown ControllerError: "@ + dec_rep(code as nat)
}

/// Diagnostic text for a controller command that carries no state code.
pub open spec fn missing_state_text(c: Controller) -> Seq<char> {
    "ControllerCommand without a state code: "@ + controller_text(c)
}

/// Diagnostic text for a notification sub-code outside the table; it
/// still names the causing node.
pub open spec fn unknown_subcode_text(code: u8, n: Node) -> Seq<char> {
    "Unknown NotificationCode "@ + dec_rep(code as nat) + " for "@ + node_text(n)
}

/// Diagnostic text for a notification kind outside the table.
pub open spec fn unknown_kind_text(raw: RawNotification) -> Seq<char> {
    "Unknown notification: kind "@ + dec_rep(raw.kind as nat) + " "@ + node_text(raw.spec_node())
}

/// How one raw notification moves the network state.  Only driver
/// readiness, controller commands, node arrival and departure, and value
/// reports mutate; every other kind, and every unrecognized code, leaves
/// the state exactly as it was.
pub open spec fn step(m: StateModel, raw: RawNotification) -> StateModel {
    match NotificationKind::spec_from_u8(raw.kind) {
        Some(NotificationKind::DriverReady) => m.with_ready_controller(raw.spec_controller()),
        Some(NotificationKind::ControllerCommand) => step_controller_command(m, raw),
        Some(NotificationKind::NodeAdded) => m.with_node(raw.spec_node()),
        Some(NotificationKind::NodeRemoved) => m.without_node(raw.spec_node()),
        Some(NotificationKind::ValueAdded) => m.with_value(raw.value),
        Some(NotificationKind::ValueChanged) => m.with_value(raw.value),
        Some(NotificationKind::ValueRemoved) => m.without_value(raw.value.identity),
        _ => m,
    }
}

/// How a controller command moves the state: a recognized state code
/// replaces the controller's info wholesale; an unrecognized outer code
/// stops before the inner decode; an unrecognized error code, or a
/// missing state code, also leaves the state untouched.
pub open spec fn step_controller_command(m: StateModel, raw: RawNotification) -> StateModel {
    match raw.event {
        Some(code) => match ControllerState::spec_from_u8(code) {
            Some(ControllerState::Error) => match ControllerError::spec_from_u8(raw.byte) {
                Some(err) => m.with_controller_info(
                    raw.spec_controller(),
                    ControllerInfo { last_state: ControllerState::Error, last_error: err },
                ),
                None => m,
            },
            Some(st) => m.with_controller_info(
                raw.spec_controller(),
                ControllerInfo { last_state: st, last_error: ControllerError::NoError },
            ),
            None => m,
        },
        None => m,
    }
}

/// The state after a whole sequence of notifications, first one first.
pub open spec fn step_all(m: StateModel, raws: Seq<RawNotification>) -> StateModel
    decreases raws.len(),
{
    if raws.len() == 0 {
        m
    } else {
        step_all(step(m, raws[0]), raws.drop_first())
    }
}

/// Stepping through a sequence and then one more notification is the
/// same as stepping through the sequence with that notification at its
/// end.
proof fn lemma_step_all_snoc(m: StateModel, raws: Seq<RawNotification>, raw: RawNotification)
    ensures
        step_all(m, raws.push(raw)) == step(step_all(m, raws), raw),
    decreases raws.len(),
{
    let t = raws.push(raw);
    if raws.len() == 0 {
        assert(t[0] == raw);
        assert(t.drop_first() =~= Seq::<RawNotification>::empty());
        assert(step_all(m, t) == step_all(step(m, raw), t.drop_first()));
        assert(step_all(step(m, raw), t.drop_first()) == step(m, raw));
        assert(step_all(m, raws) == m);
    } else {
        assert(t[0] == raws[0]);
        assert(t.drop_first() =~= raws.drop_first().push(raw));
        lemma_step_all_snoc(step(m, raws[0]), raws.drop_first(), raw);
        assert(step_all(m, t) == step_all(step(m, t[0]), t.drop_first()));
        assert(step_all(m, raws) == step_all(step(m, raws[0]), raws.drop_first()));
    }
}

/// The one domain event a raw notification translates to.
pub open spec fn expected_event(raw: RawNotification, ev: ZWaveNotification) -> bool {
    let c = raw.spec_controller();
    let n = raw.spec_node();
    match NotificationKind::spec_from_u8(raw.kind) {
        Some(NotificationKind::DriverReady) => ev == ZWaveNotification::ControllerReady(c),
        Some(NotificationKind::DriverFailed) => ev == ZWaveNotification::ControllerFailed(c),
        Some(NotificationKind::DriverReset) => ev == ZWaveNotification::ControllerReset(c),
        Some(NotificationKind::AwakeNodesQueried) => ev == ZWaveNotification::AwakeNodesQueried(c),
        Some(NotificationKind::AllNodesQueriedSomeDead) => ev
            == ZWaveNotification::AllNodesQueriedSomeDead(c),
        Some(NotificationKind::AllNodesQueried) => ev == ZWaveNotification::AllNodesQueried(c),
        Some(NotificationKind::ControllerCommand) => expected_command_event(raw, ev),
        Some(NotificationKind::NodeNew) => ev == ZWaveNotification::NodeNew(n),
        Some(NotificationKind::NodeAdded) => ev == ZWaveNotification::NodeAdded(n),
        Some(NotificationKind::NodeRemoved) => ev == ZWaveNotification::NodeRemoved(n),
        Some(NotificationKind::NodeNaming) => ev == ZWaveNotification::NodeNaming(n),
        Some(NotificationKind::NodeProtocolInfo) => ev == ZWaveNotification::NodeProtocolInfo(n),
        Some(NotificationKind::NodeEvent) => ev == ZWaveNotification::NodeEvent(n, raw.byte),
        Some(NotificationKind::Group) => ev == ZWaveNotification::Group(n),
        Some(NotificationKind::EssentialNodeQueriesComplete) => ev
            == ZWaveNotification::EssentialNodeQueriesComplete(n),
        Some(NotificationKind::NodeQueriesComplete) => ev
            == ZWaveNotification::NodeQueriesComplete(n),
        Some(NotificationKind::Notification) => expected_subcode_event(raw, ev),
        Some(NotificationKind::ValueAdded) => ev == ZWaveNotification::ValueAdded(raw.value),
        Some(NotificationKind::ValueChanged) => ev == ZWaveNotification::ValueChanged(raw.value),
        Some(NotificationKind::ValueRemoved) => ev == ZWaveNotification::ValueRemoved(raw.value),
        Some(NotificationKind::ValueRefreshed) => ev == ZWaveNotification::ValueRefreshed(
            raw.value,
        ),
        None => (ev matches ZWaveNotification::Generic(msg) && msg@ == unknown_kind_text(raw)),
    }
}

/// The event of a controller command: the command-progress event of a
/// recognized state, the error event of a recognized error, or the
/// diagnostic the two-level decode short-circuits to.
pub open spec fn expected_command_event(raw: RawNotification, ev: ZWaveNotification) -> bool {
    let c = raw.spec_controller();
    match raw.event {
        Some(code) => match ControllerState::spec_from_u8(code) {
            Some(ControllerState::Error) => match ControllerError::spec_from_u8(raw.byte) {
                Some(ControllerError::NoError) => ev == ZWaveNotification::ErrorNone(c),
                Some(ControllerError::ButtonNotFound) => ev
                    == ZWaveNotification::ErrorButtonNotFound(c),
                Some(ControllerError::NodeNotFound) => ev == ZWaveNotification::ErrorNodeNotFound(
                    c,
                ),
                Some(ControllerError::NotBridge) => ev == ZWaveNotification::ErrorNotBridge(c),
                Some(ControllerError::NotSUC) => ev == ZWaveNotification::ErrorNotSUC(c),
                Some(ControllerError::NotSecondary) => ev == ZWaveNotification::ErrorNotSecondary(
                    c,
                ),
                Some(ControllerError::NotPrimary) => ev == ZWaveNotification::ErrorNotPrimary(c),
                Some(ControllerError::IsPrimary) => ev == ZWaveNotification::ErrorIsPrimary(c),
                Some(ControllerError::NotFound) => ev == ZWaveNotification::ErrorNotFound(c),
                Some(ControllerError::Busy) => ev == ZWaveNotification::ErrorBusy(c),
                Some(ControllerError::Failed) => ev == ZWaveNotification::ErrorFailed(c),
                Some(ControllerError::Disabled) => ev == ZWaveNotification::ErrorDisabled(c),
                Some(ControllerError::Overflow) => ev == ZWaveNotification::ErrorOverflow(c),
                None => (ev matches ZWaveNotification::Generic(msg) && msg@ == unknown_error_text(
                    raw.byte,
                )),
            },
            Some(ControllerState::Normal) => ev == ZWaveNotification::StateNormal(c),
            Some(ControllerState::Starting) => ev == ZWaveNotification::StateStarting(c),
            Some(ControllerState::Cancel) => ev == ZWaveNotification::StateCancel(c),
            Some(ControllerState::Waiting) => ev == ZWaveNotification::StateWaiting(c),
            Some(ControllerState::Sleeping) => ev == ZWaveNotification::StateSleeping(c),
            Some(ControllerState::InProgress) => ev == ZWaveNotification::StateInProgress(c),
            Some(ControllerState::Completed) => ev == ZWaveNotification::StateCompleted(c),
            Some(ControllerState::Failed) => ev == ZWaveNotification::StateFailed(c),
            Some(ControllerState::NodeOK) => ev == ZWaveNotification::StateNodeOK(c),
            Some(ControllerState::NodeFailed) => ev == ZWaveNotification::StateNodeFailed(c),
            None => (ev matches ZWaveNotification::Generic(msg) && msg@ == unknown_state_text(
                code,
            )),
        },
        None => (ev matches ZWaveNotification::Generic(msg) && msg@ == missing_state_text(c)),
    }
}

/// The event of a sub-coded notification: one of the seven node
/// notifications, or the diagnostic naming the node and the raw code.
pub open spec fn expected_subcode_event(raw: RawNotification, ev: ZWaveNotification) -> bool {
    let n = raw.spec_node();
    match NotificationCode::spec_from_u8(raw.byte) {
        Some(NotificationCode::MsgComplete) => ev == ZWaveNotification::NotificationMsgComplete(n),
        Some(NotificationCode::Timeout) => ev == ZWaveNotification::NotificationTimeout(n),
        Some(NotificationCode::NoOperation) => ev == ZWaveNotification::NotificationNoOperation(n),
        Some(NotificationCode::Awake) => ev == ZWaveNotification::NotificationAwake(n),
        Some(NotificationCode::Sleep) => ev == ZWaveNotification::NotificationSleep(n),
        Some(NotificationCode::Dead) => ev == ZWaveNotification::NotificationDead(n),
        Some(NotificationCode::Alive) => ev == ZWaveNotification::NotificationAlive(n),
        None => (ev matches ZWaveNotification::Generic(msg) && msg@ == unknown_subcode_text(
            raw.byte,
            n,
        )),
    }
}

/// The diagnostic event for a controller-state code outside the table.
fn generic_unknown_state(code: u8) -> (ev: ZWaveNotification)
    ensures
        (ev matches ZWaveNotification::Generic(msg) && msg@ == unknown_state_text(code)),
{
    let mut out = "Unknown ControllerState: ".to_owned();
    push_dec(&mut out, code as u64);
    ZWaveNotification::Generic(out)
}

/// The diagnostic event for a controller-error code outside the table.
fn generic_unknown_error(code: u8) -> (ev: ZWaveNotification)
    ensures
        (ev matches ZWaveNotification::Generic(msg) && msg@ == unknown_error_text(code)),
{
    let mut out = "Unknown ControllerError: ".to_owned();
    push_dec(&mut out, code as u64);
    ZWaveNotification::Generic(out)
}

/// The diagnostic event for a controller command with no state code.
fn generic_missing_state(c: Controller) -> (ev: ZWaveNotification)
    ensures
        (ev matches ZWaveNotification::Generic(msg) && msg@ == missing_state_text(c)),
{
    let mut out = "ControllerCommand without a state code: ".to_owned();
    push_controller_text(&mut out, c);
    ZWaveNotification::Generic(out)
}

/// The diagnostic event for a notification sub-code outside the table.
fn generic_unknown_subcode(code: u8, n: Node) -> (ev: ZWaveNotification)
    ensures
        (ev matches ZWaveNotification::Generic(msg) && msg@ == unknown_subcode_text(code, n)),
{
    let mut out = "Unknown NotificationCode ".to_owned();
    push_dec(&mut out, code as u64);
    out.append(" for ");
    push_node_text(&mut out, n);
    ZWaveNotification::Generic(out)
}

/// The diagnostic event for a notification kind outside the table.
fn generic_unknown_kind(raw: &RawNotification) -> (ev: ZWaveNotification)
    ensures
        (ev matches ZWaveNotification::Generic(msg) && msg@ == unknown_kind_text(*raw)),
{
    let mut out = "Unknown notification: kind ".to_owned();
    push_dec(&mut out, raw.kind as u64);
    out.append(" ");
    push_node_text(&mut out, raw.get_node());
    ZWaveNotification::Generic(out)
}

impl State {
    /// Consume one raw notification: apply the one state mutation it
    /// calls for and return the one domain event it translates to.  The
    /// mutation is complete when this returns, so forwarding the event
    /// afterwards never exposes stale state to a consumer reacting to it.
    pub fn apply_notification(&mut self, raw: &RawNotification) -> (ev: ZWaveNotification)
        requires
            old(self).wf(),
        ensures
            final(self).wf(),
            final(self)@ == step(old(self)@, *raw),
            expected_event(*raw, ev),
    {
        let c = raw.get_controller();
        let n = raw.get_node();
        match NotificationKind::from_u8(raw.kind) {
            Some(NotificationKind::DriverReady) => {
                self.ensure_controller(c);
                ZWaveNotification::ControllerReady(c)
            },
            Some(NotificationKind::DriverFailed) => ZWaveNotification::ControllerFailed(c),
            Some(NotificationKind::DriverReset) => ZWaveNotification::ControllerReset(c),
            Some(NotificationKind::AwakeNodesQueried) => ZWaveNotification::AwakeNodesQueried(c),
            Some(NotificationKind::AllNodesQueriedSomeDead) => {
                ZWaveNotification::AllNodesQueriedSomeDead(c)
            },
            Some(NotificationKind::AllNodesQueried) => ZWaveNotification::AllNodesQueried(c),
            Some(NotificationKind::ControllerCommand) => self.apply_controller_command(raw),
            Some(NotificationKind::NodeNew) => ZWaveNotification::NodeNew(n),
            Some(NotificationKind::NodeAdded) => {
                self.add_node(n);
                ZWaveNotification::NodeAdded(n)
            },
            Some(NotificationKind::NodeRemoved) => {
                self.remove_node(n);
                ZWaveNotification::NodeRemoved(n)
            },
            Some(NotificationKind::NodeNaming) => ZWaveNotification::NodeNaming(n),
            Some(NotificationKind::NodeProtocolInfo) => ZWaveNotification::NodeProtocolInfo(n),
            Some(NotificationKind::NodeEvent) => ZWaveNotification::NodeEvent(n, raw.byte),
            Some(NotificationKind::Group) => ZWaveNotification::Group(n),
            Some(NotificationKind::EssentialNodeQueriesComplete) => {
                ZWaveNotification::EssentialNodeQueriesComplete(n)
            },
            Some(NotificationKind::NodeQueriesComplete) => {
                ZWaveNotification::NodeQueriesComplete(n)
            },
            Some(NotificationKind::Notification) => {
                match NotificationCode::from_u8(raw.byte) {
                    Some(NotificationCode::MsgComplete) => {
                        ZWaveNotification::NotificationMsgComplete(n)
                    },
                    Some(NotificationCode::Timeout) => ZWaveNotification::NotificationTimeout(n),
                    Some(NotificationCode::NoOperation) => {
                        ZWaveNotification::NotificationNoOperation(n)
                    },
                    Some(NotificationCode::Awake) => ZWaveNotification::NotificationAwake(n),
                    Some(NotificationCode::Sleep) => ZWaveNotification::NotificationSleep(n),
                    Some(NotificationCode::Dead) => ZWaveNotification::NotificationDead(n),
                    Some(NotificationCode::Alive) => ZWaveNotification::NotificationAlive(n),
                    None => generic_unknown_subcode(raw.byte, n),
                }
            },
            Some(NotificationKind::ValueAdded) => {
                self.add_value_id(raw.value);
                ZWaveNotification::ValueAdded(raw.value)
            },
            Some(NotificationKind::ValueChanged) => {
                self.add_value_id(raw.value);
                ZWaveNotification::ValueChanged(raw.value)
            },
            Some(NotificationKind::ValueRemoved) => {
                self.remove_value_id(raw.value);
                ZWaveNotification::ValueRemoved(raw.value)
            },
            Some(NotificationKind::ValueRefreshed) => ZWaveNotification::ValueRefreshed(raw.value),
            None => generic_unknown_kind(raw),
        }
    }

    /// Consume a whole sequence of raw notifications in order, returning
    /// the domain events they translate to, one per notification.
    pub fn apply_all(&mut self, inputs: &Vec<RawNotification>) -> (events: Vec<ZWaveNotification>)
        requires
            old(self).wf(),
        ensures
            final(self).wf(),
            final(self)@ == step_all(old(self)@, inputs@),
            events@.len() == inputs@.len(),
            forall|j: int| 0 <= j < inputs@.len() ==> expected_event(inputs@[j], #[trigger] events@[j]),
    {
        let ghost m0 = self@;
        let mut events: Vec<ZWaveNotification> = Vec::new();
        let mut i: usize = 0;
        while i < inputs.len()
            invariant
                i <= inputs@.len(),
                events@.len() == i,
                self.wf(),
                self@ == step_all(m0, inputs@.subrange(0, i as int)),
                forall|j: int| 0 <= j < i ==> expected_event(inputs@[j], #[trigger] events@[j]),
            decreases inputs@.len() - i,
        {
            proof {
                lemma_step_all_snoc(m0, inputs@.subrange(0, i as int), inputs@[i as int]);
                assert(inputs@.subrange(0, i + 1) =~= inputs@.subrange(0, i as int).push(
                    inputs@[i as int],
                ));
            }
            let ev = self.apply_notification(&inputs[i]);
            events.push(ev);
            i += 1;
        }
        proof {
            assert(inputs@.subrange(0, inputs@.len() as int) =~= inputs@);
        }
        events
    }

    /// The controller-command half of the translation: decode the state
    /// code; when it is `Error`, decode the error code too; replace the
    /// controller's info wholesale on a recognized decode, and stop with
    /// a diagnostic otherwise.  An unrecognized outer code never reaches
    /// the inner decode.
    fn apply_controller_command(&mut self, raw: &RawNotification) -> (ev: ZWaveNotification)
        requires
            old(self).wf(),
        ensures
            final(self).wf(),
            final(self)@ == step_controller_command(old(self)@, *raw),
            expected_command_event(*raw, ev),
    {
        let c = raw.get_controller();
        match raw.event {
            Some(code) => {
                match ControllerState::from_u8(code) {
                    Some(ControllerState::Error) => {
                        match ControllerError::from_u8(raw.byte) {
                            Some(err) => {
                                let info = ControllerInfo {
                                    last_state: ControllerState::Error,
                                    last_error: err,
                                };
                                self.set_controller_info(c, info);
                                match err {
                                    ControllerError::NoError => ZWaveNotification::ErrorNone(c),
                                    ControllerError::ButtonNotFound => {
                                        ZWaveNotification::ErrorButtonNotFound(c)
                                    },
                                    ControllerError::NodeNotFound => {
                                        ZWaveNotification::ErrorNodeNotFound(c)
                                    },
                                    ControllerError::NotBridge => {
                                        ZWaveNotification::ErrorNotBridge(c)
                                    },
                                    ControllerError::NotSUC => ZWaveNotification::ErrorNotSUC(c),
                                    ControllerError::NotSecondary => {
                                        ZWaveNotification::ErrorNotSecondary(c)
                                    },
                                    ControllerError::NotPrimary => {
                                        ZWaveNotification::ErrorNotPrimary(c)
                                    },
                                    ControllerError::IsPrimary => {
                                        ZWaveNotification::ErrorIsPrimary(c)
                                    },
                                    ControllerError::NotFound => {
                                        ZWaveNotification::ErrorNotFound(c)
                                    },
                                    ControllerError::Busy => ZWaveNotification::ErrorBusy(c),
                                    ControllerError::Failed => ZWaveNotification::ErrorFailed(c),
                                    ControllerError::Disabled => {
                                        ZWaveNotification::ErrorDisabled(c)
                                    },
                                    ControllerError::Overflow => {
                                        ZWaveNotification::ErrorOverflow(c)
                                    },
                                }
                            },
                            None => generic_unknown_error(raw.byte),
                        }
                    },
                    Some(st) => {
                        let info = ControllerInfo {
                            last_state: st,
                            last_error: ControllerError::NoError,
                        };
                        self.set_controller_info(c, info);
                        match st {
                            ControllerState::Normal => ZWaveNotification::StateNormal(c),
                            ControllerState::Starting => ZWaveNotification::StateStarting(c),
                            ControllerState::Cancel => ZWaveNotification::StateCancel(c),
                            ControllerState::Waiting => ZWaveNotification::StateWaiting(c),
                            ControllerState::Sleeping => ZWaveNotification::StateSleeping(c),
                            ControllerState::InProgress => ZWaveNotification::StateInProgress(c),
                            ControllerState::Completed => ZWaveNotification::StateCompleted(c),
                            ControllerState::Failed => ZWaveNotification::StateFailed(c),
                            ControllerState::NodeOK => ZWaveNotification::StateNodeOK(c),
                            ControllerState::NodeFailed => ZWaveNotification::StateNodeFailed(c),
                            // The Error arm above already took this case.
                            ControllerState::Error => ZWaveNotification::StateNormal(c),
                        }
                    },
                    None => generic_unknown_state(code),
                }
            },
            None => generic_missing_state(c),
        }
    }
}

} // verus!
