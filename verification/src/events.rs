//! The domain events the translator emits: a closed enumeration of every
//! meaningful network happening, each variant carrying the identity it
//! concerns, plus one free-form diagnostic variant for anything the
//! current translation table does not recognize.

use vstd::prelude::*;

use crate::ids::Controller;
use crate::ids::Node;
use crate::ids::ValueID;
use crate::text::dec_rep;
use crate::text::push_dec;

verus! {

/// One meaningful network happening: the typed form of one raw driver
/// notification.  Controller lifecycle and query-completion events carry
/// the controller; command-progress events mirror the controller state
/// and error tables; node and value lifecycle events carry their node or
/// value; `Generic` carries diagnostic text for any notification shape
/// the translation table does not recognize.
#[derive(Clone, Debug, PartialEq)]
pub enum ZWaveNotification {
    ControllerReady(Controller),
    ControllerFailed(Controller),
    ControllerReset(Controller),
    AwakeNodesQueried(Controller),
    AllNodesQueriedSomeDead(Controller),
    AllNodesQueried(Controller),
    StateNormal(Controller),
    StateStarting(Controller),
    StateCancel(Controller),
    StateWaiting(Controller),
    StateSleeping(Controller),
    StateInProgress(Controller),
    StateCompleted(Controller),
    StateFailed(Controller),
    StateNodeOK(Controller),
    StateNodeFailed(Controller),
    ErrorNone(Controller),
    ErrorButtonNotFound(Controller),
    ErrorNodeNotFound(Controller),
    ErrorNotBridge(Controller),
    ErrorNotSUC(Controller),
    ErrorNotSecondary(Controller),
    ErrorNotPrimary(Controller),
    ErrorIsPrimary(Controller),
    ErrorNotFound(Controller),
    ErrorBusy(Controller),
    ErrorFailed(Controller),
    ErrorDisabled(Controller),
    ErrorOverflow(Controller),
    NodeNew(Node),
    NodeAdded(Node),
    NodeRemoved(Node),
    NodeNaming(Node),
    NodeProtocolInfo(Node),
    NodeEvent(Node, u8),
    Group(Node),
    EssentialNodeQueriesComplete(Node),
    NodeQueriesComplete(Node),
    NotificationMsgComplete(Node),
    NotificationTimeout(Node),
    NotificationNoOperation(Node),
    NotificationAwake(Node),
    NotificationSleep(Node),
    NotificationDead(Node),
    NotificationAlive(Node),
    ValueAdded(ValueID),
    ValueChanged(ValueID),
    ValueRemoved(ValueID),
    ValueRefreshed(ValueID),
    Generic(String),
}

/// The rendering of a controller identity.
pub open spec fn controller_text(c: Controller) -> Seq<char> {
    "home "@ + dec_rep(c.home_id as nat)
}

/// The rendering of a node identity.
pub open spec fn node_text(n: Node) -> Seq<char> {
    "home "@ + dec_rep(n.home_id as nat) + " node "@ + dec_rep(n.node_id as nat)
}

/// The rendering of a value: its full identity and its payload.
pub open spec fn value_text(v: ValueID) -> Seq<char> {
    node_text(v.node()) + " class "@ + dec_rep(v.identity.command_class as nat) + " instance "@
        + dec_rep(v.identity.instance as nat) + " genre "@ + dec_rep(v.identity.genre as nat)
        + " type "@ + dec_rep(v.identity.value_type as nat) + " index "@ + dec_rep(
        v.identity.index as nat,
    ) + " payload "@ + dec_rep(v.payload as nat)
}

/// Append the rendering of a controller identity to `out`.
pub fn push_controller_text(out: &mut String, c: Controller)
    ensures
        final(out)@ == old(out)@ + controller_text(c),
{
    out.append("home ");
    push_dec(out, c.home_id as u64);
    proof {
        assert(out@ =~= old(out)@ + controller_text(c));
    }
}

/// Append the rendering of a node identity to `out`.
pub fn push_node_text(out: &mut String, n: Node)
    ensures
        final(out)@ == old(out)@ + node_text(n),
{
    out.append("home ");
    push_dec(out, n.home_id as u64);
    out.append(" node ");
    push_dec(out, n.node_id as u64);
    proof {
        assert(out@ =~= old(out)@ + node_text(n));
    }
}

/// Append the rendering of a value to `out`.
pub fn push_value_text(out: &mut String, v: ValueID)
    ensures
        final(out)@ == old(out)@ + value_text(v),
{
    push_node_text(out, v.get_node());
    out.append(" class ");
    push_dec(out, v.identity.command_class as u64);
    out.append(" instance ");
    push_dec(out, v.identity.instance as u64);
    out.append(" genre ");
    push_dec(out, v.identity.genre as u64);
    out.append(" type ");
    push_dec(out, v.identity.value_type as u64);
    out.append(" index ");
    push_dec(out, v.identity.index as u64);
    out.append(" payload ");
    push_dec(out, v.payload);
    proof {
        assert(out@ =~= old(out)@ + value_text(v));
    }
}

/// A label followed by a controller identity.
fn label_controller(label: &str, c: Controller) -> (r: String)
    ensures
        r@ == label@ + controller_text(c),
{
    let mut out = label.to_owned();
    push_controller_text(&mut out, c);
    out
}

/// A label followed by a node identity.
fn label_node(label: &str, n: Node) -> (r: String)
    ensures
        r@ == label@ + node_text(n),
{
    let mut out = label.to_owned();
    push_node_text(&mut out, n);
    out
}

/// A label followed by a value rendering.
fn label_value(label: &str, v: ValueID) -> (r: String)
    ensures
        r@ == label@ + value_text(v),
{
    let mut out = label.to_owned();
    push_value_text(&mut out, v);
    out
}

impl ZWaveNotification {
    /// The rendering of this event, as contracts see it: a fixed label
    /// naming the variant, then the identity it carries.
    pub open spec fn spec_text(self) -> Seq<char> {
        match self {
            ZWaveNotification::ControllerReady(c) => "ControllerReady: "@ + controller_text(c),
            ZWaveNotification::ControllerFailed(c) => "ControllerFailed: "@ + controller_text(c),
            ZWaveNotification::ControllerReset(c) => "ControllerReset: "@ + controller_text(c),
            ZWaveNotification::AwakeNodesQueried(c) => "AwakeNodesQueried: "@ + controller_text(c),
            ZWaveNotification::AllNodesQueriedSomeDead(c) => "AllNodesQueriedSomeDead: "@
                + controller_text(c),
            ZWaveNotification::AllNodesQueried(c) => "AllNodesQueried: "@ + controller_text(c),
            ZWaveNotification::StateNormal(c) => "ControllerStateNormal: "@ + controller_text(c),
            ZWaveNotification::StateStarting(c) => "ControllerStateStarting: "@ + controller_text(
                c,
            ),
            ZWaveNotification::StateCancel(c) => "ControllerStateCancel: "@ + controller_text(c),
            ZWaveNotification::StateWaiting(c) => "ControllerStateWaiting: "@ + controller_text(c),
            ZWaveNotification::StateSleeping(c) => "ControllerStateSleeping: "@ + controller_text(
                c,
            ),
            ZWaveNotification::StateInProgress(c) => "ControllerStateInProgress: "@
                + controller_text(c),
            ZWaveNotification::StateCompleted(c) => "ControllerStateCompleted: "@
                + controller_text(c),
            ZWaveNotification::StateFailed(c) => "ControllerStateFailed: "@ + controller_text(c),
            ZWaveNotification::StateNodeOK(c) => "ControllerStateNodeOK: "@ + controller_text(c),
            ZWaveNotification::StateNodeFailed(c) => "ControllerStateNodeFailed: "@
                + controller_text(c),
            ZWaveNotification::ErrorNone(c) => "ControllerErrorNone: "@ + controller_text(c),
            ZWaveNotification::ErrorButtonNotFound(c) => "ControllerErrorButtonNotFound: "@
                + controller_text(c),
            ZWaveNotification::ErrorNodeNotFound(c) => "ControllerErrorNodeNotFound: "@
                + controller_text(c),
            ZWaveNotification::ErrorNotBridge(c) => "ControllerErrorNotBridge: "@
                + controller_text(c),
            ZWaveNotification::ErrorNotSUC(c) => "ControllerErrorNotSUC: "@ + controller_text(c),
            ZWaveNotification::ErrorNotSecondary(c) => "ControllerErrorNotSecondary: "@
                + controller_text(c),
            ZWaveNotification::ErrorNotPrimary(c) => "ControllerErrorNotPrimary: "@
                + controller_text(c),
            ZWaveNotification::ErrorIsPrimary(c) => "ControllerErrorIsPrimary: "@
                + controller_text(c),
            ZWaveNotification::ErrorNotFound(c) => "ControllerErrorNotFound: "@ + controller_text(
                c,
            ),
            ZWaveNotification::ErrorBusy(c) => "ControllerErrorBusy: "@ + controller_text(c),
            ZWaveNotification::ErrorFailed(c) => "ControllerErrorFailed: "@ + controller_text(c),
            ZWaveNotification::ErrorDisabled(c) => "ControllerErrorDisabled: "@ + controller_text(
                c,
            ),
            ZWaveNotification::ErrorOverflow(c) => "ControllerErrorOverflow: "@ + controller_text(
                c,
            ),
            ZWaveNotification::NodeNew(n) => "NodeNew: "@ + node_text(n),
            ZWaveNotification::NodeAdded(n) => "NodeAdded: "@ + node_text(n),
            ZWaveNotification::NodeRemoved(n) => "NodeRemoved: "@ + node_text(n),
            ZWaveNotification::NodeNaming(n) => "NodeNaming: "@ + node_text(n),
            ZWaveNotification::NodeProtocolInfo(n) => "NodeProtocolInfo: "@ + node_text(n),
            ZWaveNotification::NodeEvent(n, b) => "NodeEvent: "@ + node_text(n) + " event "@
                + dec_rep(b as nat),
            ZWaveNotification::Group(n) => "Group: "@ + node_text(n),
            ZWaveNotification::EssentialNodeQueriesComplete(n) => "EssentialNodeQueriesComplete: "@
                + node_text(n),
            ZWaveNotification::NodeQueriesComplete(n) => "NodeQueriesComplete: "@ + node_text(n),
            ZWaveNotification::NotificationMsgComplete(n) => "NotificationMsgComplete: "@
                + node_text(n),
            ZWaveNotification::NotificationTimeout(n) => "NotificationTimeout: "@ + node_text(n),
            ZWaveNotification::NotificationNoOperation(n) => "NotificationNoOperation: "@
                + node_text(n),
            ZWaveNotification::NotificationAwake(n) => "NotificationAwake: "@ + node_text(n),
            ZWaveNotification::NotificationSleep(n) => "NotificationSleep: "@ + node_text(n),
            ZWaveNotification::NotificationDead(n) => "NotificationDead: "@ + node_text(n),
            ZWaveNotification::NotificationAlive(n) => "NotificationAlive: "@ + node_text(n),
            ZWaveNotification::ValueAdded(v) => "ValueAdded: "@ + value_text(v),
            ZWaveNotification::ValueChanged(v) => "ValueChanged: "@ + value_text(v),
            ZWaveNotification::ValueRemoved(v) => "ValueRemoved: "@ + value_text(v),
            ZWaveNotification::ValueRefreshed(v) => "ValueRefreshed: "@ + value_text(v),
            ZWaveNotification::Generic(msg) => "Generic: "@ + msg@,
        }
    }

    /// Render this event for logging: a fixed label naming the variant,
    /// then the identity it carries.
    pub fn describe(&self) -> (r: String)
        ensures
            r@ == self.spec_text(),
    {
        match self {
            ZWaveNotification::ControllerReady(c) => label_controller("ControllerReady: ", *c),
            ZWaveNotification::ControllerFailed(c) => label_controller("ControllerFailed: ", *c),
            ZWaveNotification::ControllerReset(c) => label_controller("ControllerReset: ", *c),
            ZWaveNotification::AwakeNodesQueried(c) => label_controller(
                "AwakeNodesQueried: ",
                *c,
            ),
            ZWaveNotification::AllNodesQueriedSomeDead(c) => label_controller(
                "AllNodesQueriedSomeDead: ",
                *c,
            ),
            ZWaveNotification::AllNodesQueried(c) => label_controller("AllNodesQueried: ", *c),
            ZWaveNotification::StateNormal(c) => label_controller("ControllerStateNormal: ", *c),
            ZWaveNotification::StateStarting(c) => label_controller(
                "ControllerStateStarting: ",
                *c,
            ),
            ZWaveNotification::StateCancel(c) => label_controller("ControllerStateCancel: ", *c),
            ZWaveNotification::StateWaiting(c) => label_controller("ControllerStateWaiting: ", *c),
            ZWaveNotification::StateSleeping(c) => label_controller(
                "ControllerStateSleeping: ",
                *c,
            ),
            ZWaveNotification::StateInProgress(c) => label_controller(
                "ControllerStateInProgress: ",
                *c,
            ),
            ZWaveNotification::StateCompleted(c) => label_controller(
                "ControllerStateCompleted: ",
                *c,
            ),
            ZWaveNotification::StateFailed(c) => label_controller("ControllerStateFailed: ", *c),
            ZWaveNotification::StateNodeOK(c) => label_controller("ControllerStateNodeOK: ", *c),
            ZWaveNotification::StateNodeFailed(c) => label_controller(
                "ControllerStateNodeFailed: ",
                *c,
            ),
            ZWaveNotification::ErrorNone(c) => label_controller("ControllerErrorNone: ", *c),
            ZWaveNotification::ErrorButtonNotFound(c) => label_controller(
                "ControllerErrorButtonNotFound: ",
                *c,
            ),
            ZWaveNotification::ErrorNodeNotFound(c) => label_controller(
                "ControllerErrorNodeNotFound: ",
                *c,
            ),
            ZWaveNotification::ErrorNotBridge(c) => label_controller(
                "ControllerErrorNotBridge: ",
                *c,
            ),
            ZWaveNotification::ErrorNotSUC(c) => label_controller("ControllerErrorNotSUC: ", *c),
            ZWaveNotification::ErrorNotSecondary(c) => label_controller(
                "ControllerErrorNotSecondary: ",
                *c,
            ),
            ZWaveNotification::ErrorNotPrimary(c) => label_controller(
                "ControllerErrorNotPrimary: ",
                *c,
            ),
            ZWaveNotification::ErrorIsPrimary(c) => label_controller(
                "ControllerErrorIsPrimary: ",
                *c,
            ),
            ZWaveNotification::ErrorNotFound(c) => label_controller(
                "ControllerErrorNotFound: ",
                *c,
            ),
            ZWaveNotification::ErrorBusy(c) => label_controller("ControllerErrorBusy: ", *c),
            ZWaveNotification::ErrorFailed(c) => label_controller("ControllerErrorFailed: ", *c),
            ZWaveNotification::ErrorDisabled(c) => label_controller(
                "ControllerErrorDisabled: ",
                *c,
            ),
            ZWaveNotification::ErrorOverflow(c) => label_controller(
                "ControllerErrorOverflow: ",
                *c,
            ),
            ZWaveNotification::NodeNew(n) => label_node("NodeNew: ", *n),
            ZWaveNotification::NodeAdded(n) => label_node("NodeAdded: ", *n),
            ZWaveNotification::NodeRemoved(n) => label_node("NodeRemoved: ", *n),
            ZWaveNotification::NodeNaming(n) => label_node("NodeNaming: ", *n),
            ZWaveNotification::NodeProtocolInfo(n) => label_node("NodeProtocolInfo: ", *n),
            ZWaveNotification::NodeEvent(n, b) => {
                let mut out = label_node("NodeEvent: ", *n);
                out.append(" event ");
                push_dec(&mut out, *b as u64);
                proof {
                    assert(out@ =~= self.spec_text());
                }
                out
            },
            ZWaveNotification::Group(n) => label_node("Group: ", *n),
            ZWaveNotification::EssentialNodeQueriesComplete(n) => label_node(
                "EssentialNodeQueriesComplete: ",
                *n,
            ),
            ZWaveNotification::NodeQueriesComplete(n) => label_node("NodeQueriesComplete: ", *n),
            ZWaveNotification::NotificationMsgComplete(n) => label_node(
                "NotificationMsgComplete: ",
                *n,
            ),
            ZWaveNotification::NotificationTimeout(n) => label_node("NotificationTimeout: ", *n),
            ZWaveNotification::NotificationNoOperation(n) => label_node(
                "NotificationNoOperation: ",
                *n,
            ),
            ZWaveNotification::NotificationAwake(n) => label_node("NotificationAwake: ", *n),
            ZWaveNotification::NotificationSleep(n) => label_node("NotificationSleep: ", *n),
            ZWaveNotification::NotificationDead(n) => label_node("NotificationDead: ", *n),
            ZWaveNotification::NotificationAlive(n) => label_node("NotificationAlive: ", *n),
            ZWaveNotification::ValueAdded(v) => label_value("ValueAdded: ", *v),
            ZWaveNotification::ValueChanged(v) => label_value("ValueChanged: ", *v),
            ZWaveNotification::ValueRemoved(v) => label_value("ValueRemoved: ", *v),
            ZWaveNotification::ValueRefreshed(v) => label_value("ValueRefreshed: ", *v),
            ZWaveNotification::Generic(msg) => {
                let mut out = "Generic: ".to_owned();
                out.append(msg.as_str());
                proof {
                    assert(out@ =~= self.spec_text());
                }
                out
            },
        }
    }
}

} // verus!
