//! Identities of the entities a Z-Wave network is made of: controllers,
//! nodes, and per-node values.
//!
//! The driver reports each entity by a handful of small integers; these
//! types hold exactly those integers, so that every rule of the library
//! can be stated and proved over plain values.

use vstd::prelude::*;

verus! {

/// A network-coordinator device, identified by the 32-bit home id of the
/// network it coordinates.
#[derive(PartialEq, Eq, Structural, Clone, Copy, Debug, Hash)]
pub struct Controller {
    pub home_id: u32,
}

/// A device attached to a controller's mesh.  Its identity is composite:
/// the home id of the owning controller plus the 8-bit node id within
/// that network.
#[derive(PartialEq, Eq, Structural, Clone, Copy, Debug, Hash, PartialOrd, Ord)]
pub struct Node {
    pub home_id: u32,
    pub node_id: u8,
}

impl Node {
    /// The controller that owns this node.
    pub fn get_controller(&self) -> (c: Controller)
        ensures
            c == self.controller(),
    {
        Controller { home_id: self.home_id }
    }

    /// The controller that owns this node, as seen by contracts.
    pub open spec fn controller(self) -> Controller {
        Controller { home_id: self.home_id }
    }
}

/// The identity of one reportable or settable property of a node: the
/// command class it belongs to, its genre, its type and its index, plus
/// the node and network that carry it.  Two reports with equal identity
/// concern the same property.
#[derive(PartialEq, Eq, Structural, Clone, Copy, Debug, Hash, PartialOrd, Ord)]
pub struct ValueIdentity {
    pub home_id: u32,
    pub node_id: u8,
    pub command_class: u8,
    pub instance: u8,
    pub genre: u8,
    pub value_type: u8,
    pub index: u8,
}

/// One reportable or settable property of a node: its identity together
/// with the raw datum the driver last reported for it.  The state keeps
/// at most one entry per identity; re-adding an identity overwrites the
/// payload (last write wins).
#[derive(PartialEq, Eq, Structural, Clone, Copy, Debug, Hash, PartialOrd, Ord)]
pub struct ValueID {
    pub identity: ValueIdentity,
    pub payload: u64,
}

impl ValueID {
    /// The node this value belongs to.
    pub fn get_node(&self) -> (n: Node)
        ensures
            n == self.node(),
    {
        Node { home_id: self.identity.home_id, node_id: self.identity.node_id }
    }

    /// The node this value belongs to, as seen by contracts.
    pub open spec fn node(self) -> Node {
        Node { home_id: self.identity.home_id, node_id: self.identity.node_id }
    }
}

} // verus!
