//! The live snapshot of the network: controllers, nodes, per-controller
//! node groupings, and per-node values.
//!
//! `State` is the executable store; `StateModel` is what its contracts
//! speak of: a map of controllers to their last observed command info, a
//! set of nodes, a map of controllers to their node groupings, and a map
//! of value identities to the last payload reported for each.  The model
//! invariant ties the flattened node set to the union of the groupings.

use vstd::prelude::*;

use crate::assoc::contains_key;
use crate::assoc::elems_unique;
use crate::assoc::index_of_key;
use crate::assoc::keys_unique;
use crate::assoc::lemma_key_absent;
use crate::assoc::lemma_key_at;
use crate::assoc::lemma_push_elem;
use crate::assoc::lemma_push_entry;
use crate::assoc::lemma_remove_elem;
use crate::assoc::lemma_remove_entry;
use crate::assoc::lemma_update_entry;
use crate::assoc::map_view;
use crate::codes::ControllerError;
use crate::codes::ControllerState;
use crate::ids::Controller;
use crate::ids::Node;
use crate::ids::ValueID;
use crate::ids::ValueIdentity;

verus! {

/// The last thing a controller reported about a command it was running:
/// its lifecycle state, and the error code when that state was `Error`.
/// A fresh controller reports `Normal` with no error; every later
/// controller-command notification replaces the record wholesale.
#[derive(PartialEq, Eq, Structural, Clone, Copy, Debug)]
pub struct ControllerInfo {
    pub last_state: ControllerState,
    pub last_error: ControllerError,
}

impl ControllerInfo {
    /// The record a controller starts with, as contracts see it.
    pub open spec fn spec_default() -> ControllerInfo {
        ControllerInfo { last_state: ControllerState::Normal, last_error: ControllerError::NoError }
    }

    /// The record a controller starts with.
    pub fn new() -> (r: ControllerInfo)
        ensures
            r == ControllerInfo::spec_default(),
    {
        ControllerInfo {
            last_state: ControllerState::Normal,
            last_error: ControllerError::NoError,
        }
    }

    /// The rendering of this record, as contracts see it.
    pub open spec fn spec_text(self) -> Seq<char> {
        "last_state: "@ + self.last_state.name_text() + " last_error: "@
            + self.last_error.name_text()
    }

    /// Render this record for logging.
    pub fn describe(&self) -> (r: String)
        ensures
            r@ == self.spec_text(),
    {
        let mut out = "last_state: ".to_owned();
        out.append(self.last_state.name_str());
        out.append(" last_error: ");
        out.append(self.last_error.name_str());
        proof {
            assert(out@ =~= self.spec_text());
        }
        out
    }
}

/// What the network state means: the abstract value `State` is a
/// representation of.
#[verifier::ext_equal]
pub struct StateModel {
    /// Every controller seen ready, with its last command info.
    pub controllers: Map<Controller, ControllerInfo>,
    /// The flattened set of nodes across all controllers.
    pub nodes: Set<Node>,
    /// The per-controller node groupings.  A grouping is created when
    /// its controller's first node arrives and stays (possibly empty)
    /// thereafter.
    pub nodes_map: Map<Controller, Set<Node>>,
    /// The last payload reported for each value identity.
    pub values: Map<ValueIdentity, u64>,
}

impl StateModel {
    /// The state the manager starts with: nothing observed yet.
    pub open spec fn empty() -> StateModel {
        StateModel {
            controllers: Map::empty(),
            nodes: Set::empty(),
            nodes_map: Map::empty(),
            values: Map::empty(),
        }
    }

    /// The grouping of `c`, empty if none was created yet.
    pub open spec fn group_of(self, c: Controller) -> Set<Node> {
        if self.nodes_map.dom().contains(c) {
            self.nodes_map[c]
        } else {
            Set::empty()
        }
    }

    /// A controller reported ready: create its entry on first sight;
    /// re-observing a known controller changes nothing, in particular it
    /// does not reset the controller's info.
    pub open spec fn with_ready_controller(self, c: Controller) -> StateModel {
        if self.controllers.dom().contains(c) {
            self
        } else {
            StateModel {
                controllers: self.controllers.insert(c, ControllerInfo::spec_default()),
                ..self
            }
        }
    }

    /// A controller reported command progress: its info is replaced
    /// wholesale.
    pub open spec fn with_controller_info(self, c: Controller, info: ControllerInfo) -> StateModel {
        StateModel { controllers: self.controllers.insert(c, info), ..self }
    }

    /// A node joined: it enters the flattened set and its controller's
    /// grouping, which is created if need be.
    pub open spec fn with_node(self, n: Node) -> StateModel {
        StateModel {
            nodes: self.nodes.insert(n),
            nodes_map: self.nodes_map.insert(n.controller(), self.group_of(n.controller()).insert(n)),
            ..self
        }
    }

    /// A node left: it leaves the flattened set and its controller's
    /// grouping; an absent grouping is left alone.
    pub open spec fn without_node(self, n: Node) -> StateModel {
        StateModel {
            nodes: self.nodes.remove(n),
            nodes_map: if self.nodes_map.dom().contains(n.controller()) {
                self.nodes_map.insert(n.controller(), self.nodes_map[n.controller()].remove(n))
            } else {
                self.nodes_map
            },
            ..self
        }
    }

    /// A value was reported: upsert by identity, last write wins.
    pub open spec fn with_value(self, v: ValueID) -> StateModel {
        StateModel { values: self.values.insert(v.identity, v.payload), ..self }
    }

    /// A value was removed: delete by identity; an unknown identity is a
    /// no-op.
    pub open spec fn without_value(self, k: ValueIdentity) -> StateModel {
        StateModel { values: self.values.remove(k), ..self }
    }

    /// The union of all per-controller groupings.
    pub open spec fn grouped_nodes(self) -> Set<Node> {
        Set::new(
            |n: Node|
                exists|c: Controller|
                    self.nodes_map.dom().contains(c) && #[trigger] self.nodes_map[c].contains(n),
        )
    }

    /// The model invariant: each grouping holds only nodes of its own
    /// controller, and a node is in the flattened set exactly when it is
    /// in its controller's grouping.
    pub open spec fn inv(self) -> bool {
        &&& forall|c: Controller, n: Node|
            self.nodes_map.dom().contains(c) && #[trigger] self.nodes_map[c].contains(n)
                ==> n.controller() == c
        &&& forall|n: Node|
            #[trigger] self.nodes.contains(n) <==> (self.nodes_map.dom().contains(n.controller())
                && self.nodes_map[n.controller()].contains(n))
    }
}

/// Whether `v` holds `node`.
fn contains_node(v: &Vec<Node>, node: &Node) -> (b: bool)
    ensures
        b == v@.contains(*node),
{
    let mut i: usize = 0;
    while i < v.len()
        invariant
            i <= v@.len(),
            forall|j: int| 0 <= j < i ==> v@[j] != *node,
        decreases v@.len() - i,
    {
        if v[i] == *node {
            return true;
        }
        i += 1;
    }
    false
}

/// Remove `node` from `v` if present; absent nodes are a no-op.
fn remove_node_elem(v: &mut Vec<Node>, node: &Node)
    requires
        elems_unique(old(v)@),
    ensures
        elems_unique(final(v)@),
        final(v)@.to_set() == old(v)@.to_set().remove(*node),
{
    let mut i: usize = 0;
    while i < v.len()
        invariant
            i <= v@.len(),
            v@ == old(v)@,
            elems_unique(v@),
            forall|j: int| 0 <= j < i ==> v@[j] != *node,
        decreases v@.len() - i,
    {
        if v[i] == *node {
            proof {
                lemma_remove_elem(v@, i as int);
            }
            v.remove(i);
            return;
        }
        i += 1;
    }
    proof {
        assert(!v@.contains(*node));
        assert(v@.to_set() =~= old(v)@.to_set().remove(*node));
    }
}

/// The per-controller groupings, as stored, read as a map of node sets.
pub open spec fn groups_view(s: Seq<(Controller, Vec<Node>)>) -> Map<Controller, Set<Node>> {
    Map::new(
        |c: Controller| contains_key(s, c),
        |c: Controller| s[index_of_key(s, c)].1@.to_set(),
    )
}

/// The grouping map agrees with the pair map: same domain, and each
/// grouping is the stored vector read as a set.
proof fn lemma_groups_view_lift(s: Seq<(Controller, Vec<Node>)>)
    ensures
        forall|c: Controller|
            #[trigger] groups_view(s).dom().contains(c) <==> map_view(s).dom().contains(c),
        forall|c: Controller|
            groups_view(s).dom().contains(c) ==> #[trigger] groups_view(s)[c] == map_view(
                s,
            )[c]@.to_set(),
{
}

/// Adding a node preserves the model invariant.
pub proof fn lemma_with_node_inv(m: StateModel, n: Node)
    requires
        m.inv(),
    ensures
        m.with_node(n).inv(),
{
    let c = n.controller();
    let m2 = m.with_node(n);
    assert forall|k: Controller, x: Node|
        m2.nodes_map.dom().contains(k) && #[trigger] m2.nodes_map[k].contains(x)
            implies x.controller() == k by {
        if k == c {
            if x != n {
                assert(m.group_of(c).contains(x));
                assert(m.nodes_map.dom().contains(c) && m.nodes_map[c].contains(x));
            }
        } else {
            assert(m.nodes_map.dom().contains(k) && m.nodes_map[k].contains(x));
        }
    }
    assert forall|x: Node| #[trigger]
        m2.nodes.contains(x) <==> (m2.nodes_map.dom().contains(x.controller())
            && m2.nodes_map[x.controller()].contains(x)) by {
        if x != n {
            if x.controller() == c {
                assert(m2.nodes_map[c] == m.group_of(c).insert(n));
                assert(m2.nodes_map[c].contains(x) == m.group_of(c).contains(x));
            }
        }
    }
}

/// Removing a node preserves the model invariant.
pub proof fn lemma_without_node_inv(m: StateModel, n: Node)
    requires
        m.inv(),
    ensures
        m.without_node(n).inv(),
{
    let c = n.controller();
    let m2 = m.without_node(n);
    assert forall|k: Controller, x: Node|
        m2.nodes_map.dom().contains(k) && #[trigger] m2.nodes_map[k].contains(x)
            implies x.controller() == k by {
        assert(m.nodes_map.dom().contains(k) && m.nodes_map[k].contains(x));
    }
    assert forall|x: Node| #[trigger]
        m2.nodes.contains(x) <==> (m2.nodes_map.dom().contains(x.controller())
            && m2.nodes_map[x.controller()].contains(x)) by {
        if x != n && x.controller() == c && m.nodes_map.dom().contains(c) {
            assert(m2.nodes_map[c].contains(x) == m.nodes_map[c].contains(x));
        }
    }
}

/// The stored values, read as key-value entries.
pub open spec fn value_entries(s: Seq<ValueID>) -> Seq<(ValueIdentity, u64)> {
    s.map_values(|v: ValueID| (v.identity, v.payload))
}

/// The stored values, read as a map from identity to last payload.
pub open spec fn values_view(s: Seq<ValueID>) -> Map<ValueIdentity, u64> {
    map_view(value_entries(s))
}

/// The snapshot of the network that the translator maintains and the
/// application reads.
pub struct State {
    controllers: Vec<(Controller, ControllerInfo)>,
    nodes: Vec<Node>,
    nodes_map: Vec<(Controller, Vec<Node>)>,
    value_ids: Vec<ValueID>,
}

impl View for State {
    type V = StateModel;

    closed spec fn view(&self) -> StateModel {
        StateModel {
            controllers: map_view(self.controllers@),
            nodes: self.nodes@.to_set(),
            nodes_map: groups_view(self.nodes_map@),
            values: values_view(self.value_ids@),
        }
    }
}

impl State {
    /// The representation invariant: every stored collection is free of
    /// duplicate keys, and the model invariant holds.
    pub closed spec fn wf(self) -> bool {
        &&& keys_unique(self.controllers@)
        &&& elems_unique(self.nodes@)
        &&& keys_unique(self.nodes_map@)
        &&& forall|i: int|
            0 <= i < self.nodes_map@.len() ==> elems_unique(#[trigger] self.nodes_map@[i].1@)
        &&& keys_unique(value_entries(self.value_ids@))
        &&& self@.inv()
    }

    /// A well-formed state satisfies the model invariant.
    pub proof fn lemma_wf_implies_inv(self)
        requires
            self.wf(),
        ensures
            self@.inv(),
    {
    }

    /// An empty snapshot: no controller, node or value observed yet.
    pub fn new() -> (s: State)
        ensures
            s.wf(),
            s@ == StateModel::empty(),
    {
        let s = State {
            controllers: Vec::new(),
            nodes: Vec::new(),
            nodes_map: Vec::new(),
            value_ids: Vec::new(),
        };
        proof {
            assert(s@ =~~= StateModel::empty());
        }
        s
    }

    /// The index of `c`'s entry among the stored controllers, if any.
    fn find_controller_index(&self, c: &Controller) -> (r: Option<usize>)
        ensures
            match r {
                Some(i) => i < self.controllers@.len() && self.controllers@[i as int].0 == *c,
                None => forall|j: int|
                    0 <= j < self.controllers@.len() ==> self.controllers@[j].0 != *c,
            },
    {
        let mut i: usize = 0;
        while i < self.controllers.len()
            invariant
                i <= self.controllers@.len(),
                forall|j: int| 0 <= j < i ==> self.controllers@[j].0 != *c,
            decreases self.controllers@.len() - i,
        {
            if self.controllers[i].0 == *c {
                return Some(i);
            }
            i += 1;
        }
        None
    }

    /// Record that `c` reported ready: its entry is created with default
    /// info on first sight, and left untouched when already present.
    pub(crate) fn ensure_controller(&mut self, c: Controller)
        requires
            old(self).wf(),
        ensures
            final(self).wf(),
            final(self)@ == old(self)@.with_ready_controller(c),
    {
        match self.find_controller_index(&c) {
            Some(i) => {
                proof {
                    lemma_key_at(self.controllers@, i as int);
                }
            },
            None => {
                proof {
                    lemma_key_absent(self.controllers@, c);
                    lemma_push_entry(self.controllers@, c, ControllerInfo::spec_default());
                }
                self.controllers.push((c, ControllerInfo::new()));
                proof {
                    assert(self@ =~~= old(self)@.with_ready_controller(c));
                }
            },
        }
    }

    /// Replace `c`'s info wholesale, creating the entry if `c` was never
    /// seen ready.
    pub(crate) fn set_controller_info(&mut self, c: Controller, info: ControllerInfo)
        requires
            old(self).wf(),
        ensures
            final(self).wf(),
            final(self)@ == old(self)@.with_controller_info(c, info),
    {
        match self.find_controller_index(&c) {
            Some(i) => {
                proof {
                    lemma_update_entry(self.controllers@, i as int, c, info);
                }
                self.controllers[i] = (c, info);
                proof {
                    assert(self@ =~~= old(self)@.with_controller_info(c, info));
                }
            },
            None => {
                proof {
                    lemma_key_absent(self.controllers@, c);
                    lemma_push_entry(self.controllers@, c, info);
                }
                self.controllers.push((c, info));
                proof {
                    assert(self@ =~~= old(self)@.with_controller_info(c, info));
                }
            },
        }
    }

    /// The index of `c`'s grouping among the stored groupings, if any.
    fn find_group_index(&self, c: &Controller) -> (r: Option<usize>)
        ensures
            match r {
                Some(i) => i < self.nodes_map@.len() && self.nodes_map@[i as int].0 == *c,
                None => forall|j: int|
                    0 <= j < self.nodes_map@.len() ==> self.nodes_map@[j].0 != *c,
            },
    {
        let mut i: usize = 0;
        while i < self.nodes_map.len()
            invariant
                i <= self.nodes_map@.len(),
                forall|j: int| 0 <= j < i ==> self.nodes_map@[j].0 != *c,
            decreases self.nodes_map@.len() - i,
        {
            if self.nodes_map[i].0 == *c {
                return Some(i);
            }
            i += 1;
        }
        None
    }

    /// Record that `node` joined the mesh: it enters the flattened node
    /// set and its controller's grouping, which is created if need be.
    /// Re-adding a present node changes nothing.
    pub fn add_node(&mut self, node: Node)
        requires
            old(self).wf(),
        ensures
            final(self).wf(),
            final(self)@ == old(self)@.with_node(node),
    {
        let ghost m0 = self@;
        let c = node.get_controller();
        match self.find_group_index(&c) {
            Some(i) => {
                let group = &mut self.nodes_map[i].1;
                proof {
                    lemma_key_at(old(self).nodes_map@, i as int);
                }
                if !contains_node(group, &node) {
                    proof {
                        lemma_push_elem(group@, node);
                    }
                    group.push(node);
                }
                proof {
                    lemma_update_entry(
                        old(self).nodes_map@,
                        i as int,
                        c,
                        self.nodes_map@[i as int].1,
                    );
                    assert(groups_view(self.nodes_map@) =~~= m0.nodes_map.insert(
                        c,
                        m0.group_of(c).insert(node),
                    )) by {
                        lemma_groups_view_lift(self.nodes_map@);
                        lemma_groups_view_lift(old(self).nodes_map@);
                        assert(self.nodes_map@[i as int].1@.to_set() =~= m0.group_of(c).insert(
                            node,
                        ));
                    }
                }
            },
            None => {
                let mut group: Vec<Node> = Vec::new();
                group.push(node);
                let ghost gseq = group@;
                proof {
                    lemma_key_absent(self.nodes_map@, c);
                    lemma_push_entry(self.nodes_map@, c, group);
                }
                self.nodes_map.push((c, group));
                proof {
                    assert(gseq.to_set() =~= Set::<Node>::empty().insert(node)) by {
                        assert(gseq.len() == 1 && gseq[0] == node);
                        assert forall|x: Node| #[trigger] gseq.contains(x) implies x == node by {
                            let w = choose|w: int| 0 <= w < gseq.len() && gseq[w] == x;
                        }
                        assert(gseq.contains(node));
                    }
                    assert(groups_view(self.nodes_map@) =~~= m0.nodes_map.insert(
                        c,
                        m0.group_of(c).insert(node),
                    )) by {
                        lemma_groups_view_lift(self.nodes_map@);
                        lemma_groups_view_lift(old(self).nodes_map@);
                        assert(!m0.nodes_map.dom().contains(c));
                        assert(m0.group_of(c) =~= Set::<Node>::empty());
                        assert(map_view(self.nodes_map@)[c]@ == gseq);
                    }
                }
            },
        }
        if !contains_node(&self.nodes, &node) {
            proof {
                lemma_push_elem(self.nodes@, node);
            }
            self.nodes.push(node);
        } else {
            proof {
                assert(self.nodes@.to_set() =~= m0.nodes.insert(node));
            }
        }
        proof {
            assert(self@ =~~= m0.with_node(node));
            lemma_with_node_inv(m0, node);
        }
    }

    /// Record that `node` left the mesh: it leaves the flattened node set
    /// and its controller's grouping.  Removing an absent node, or one
    /// whose controller never had a grouping, changes nothing.
    pub fn remove_node(&mut self, node: Node)
        requires
            old(self).wf(),
        ensures
            final(self).wf(),
            final(self)@ == old(self)@.without_node(node),
    {
        let ghost m0 = self@;
        let c = node.get_controller();
        match self.find_group_index(&c) {
            Some(i) => {
                proof {
                    lemma_key_at(old(self).nodes_map@, i as int);
                }
                let group = &mut self.nodes_map[i].1;
                remove_node_elem(group, &node);
                proof {
                    lemma_update_entry(
                        old(self).nodes_map@,
                        i as int,
                        c,
                        self.nodes_map@[i as int].1,
                    );
                    assert(groups_view(self.nodes_map@) =~~= m0.nodes_map.insert(
                        c,
                        m0.nodes_map[c].remove(node),
                    )) by {
                        lemma_groups_view_lift(self.nodes_map@);
                        lemma_groups_view_lift(old(self).nodes_map@);
                    }
                }
            },
            None => {
                proof {
                    lemma_key_absent(self.nodes_map@, c);
                }
            },
        }
        remove_node_elem(&mut self.nodes, &node);
        proof {
            assert(self@ =~~= m0.without_node(node));
            lemma_without_node_inv(m0, node);
        }
    }

    /// The index of the stored value with identity `k`, if any.
    fn find_value_index(&self, k: &ValueIdentity) -> (r: Option<usize>)
        ensures
            match r {
                Some(i) => i < self.value_ids@.len() && self.value_ids@[i as int].identity == *k,
                None => forall|j: int|
                    0 <= j < self.value_ids@.len() ==> self.value_ids@[j].identity != *k,
            },
    {
        let mut i: usize = 0;
        while i < self.value_ids.len()
            invariant
                i <= self.value_ids@.len(),
                forall|j: int| 0 <= j < i ==> self.value_ids@[j].identity != *k,
            decreases self.value_ids@.len() - i,
        {
            if self.value_ids[i].identity == *k {
                return Some(i);
            }
            i += 1;
        }
        None
    }

    /// Record a reported value: upsert by identity, the new payload
    /// winning over any stored one.
    pub fn add_value_id(&mut self, value_id: ValueID)
        requires
            old(self).wf(),
        ensures
            final(self).wf(),
            final(self)@ == old(self)@.with_value(value_id),
    {
        match self.find_value_index(&value_id.identity) {
            Some(i) => {
                proof {
                    assert(value_entries(self.value_ids@)[i as int].0 == value_id.identity);
                    lemma_update_entry(
                        value_entries(self.value_ids@),
                        i as int,
                        value_id.identity,
                        value_id.payload,
                    );
                }
                self.value_ids[i] = value_id;
                proof {
                    assert(value_entries(self.value_ids@) =~= value_entries(
                        old(self).value_ids@,
                    ).update(i as int, (value_id.identity, value_id.payload)));
                    assert(self@ =~~= old(self)@.with_value(value_id));
                }
            },
            None => {
                proof {
                    assert forall|j: int|
                        0 <= j < value_entries(self.value_ids@).len() implies value_entries(
                        self.value_ids@,
                    )[j].0 != value_id.identity by {}
                    lemma_key_absent(value_entries(self.value_ids@), value_id.identity);
                    assert(!contains_key(value_entries(self.value_ids@), value_id.identity)) by {
                        if contains_key(value_entries(self.value_ids@), value_id.identity) {
                            let w = choose|w: int|
                                0 <= w < value_entries(self.value_ids@).len() && value_entries(
                                    self.value_ids@,
                                )[w].0 == value_id.identity;
                        }
                    }
                    lemma_push_entry(
                        value_entries(self.value_ids@),
                        value_id.identity,
                        value_id.payload,
                    );
                }
                self.value_ids.push(value_id);
                proof {
                    assert(value_entries(self.value_ids@) =~= value_entries(
                        old(self).value_ids@,
                    ).push((value_id.identity, value_id.payload)));
                    assert(self@ =~~= old(self)@.with_value(value_id));
                }
            },
        }
    }

    /// Remove the stored value with `value_id`'s identity; an identity
    /// never seen is a no-op, not an error.
    pub fn remove_value_id(&mut self, value_id: ValueID)
        requires
            old(self).wf(),
        ensures
            final(self).wf(),
            final(self)@ == old(self)@.without_value(value_id.identity),
    {
        match self.find_value_index(&value_id.identity) {
            Some(i) => {
                proof {
                    assert(value_entries(self.value_ids@)[i as int].0 == value_id.identity);
                    lemma_remove_entry(value_entries(self.value_ids@), i as int);
                }
                self.value_ids.remove(i);
                proof {
                    assert(value_entries(self.value_ids@) =~= value_entries(
                        old(self).value_ids@,
                    ).remove(i as int));
                    assert(self@ =~~= old(self)@.without_value(value_id.identity));
                }
            },
            None => {
                proof {
                    assert forall|j: int|
                        0 <= j < value_entries(self.value_ids@).len() implies value_entries(
                        self.value_ids@,
                    )[j].0 != value_id.identity by {}
                    lemma_key_absent(value_entries(self.value_ids@), value_id.identity);
                    assert(self@.values =~= self@.values.remove(value_id.identity));
                    assert(self@ =~~= old(self)@.without_value(value_id.identity));
                }
            },
        }
    }

    /// The flattened nodes, one entry per node.
    pub fn get_nodes(&self) -> (r: &Vec<Node>)
        ensures
            r@.to_set() == self@.nodes,
            self.wf() ==> elems_unique(r@),
    {
        &self.nodes
    }

    /// The stored per-controller groupings, one entry per controller that
    /// ever had a node.
    pub fn get_nodes_map(&self) -> (r: &Vec<(Controller, Vec<Node>)>)
        ensures
            groups_view(r@) == self@.nodes_map,
            self.wf() ==> keys_unique(r@),
    {
        &self.nodes_map
    }

    /// The stored values, one entry per value identity.
    pub fn get_values(&self) -> (r: &Vec<ValueID>)
        ensures
            values_view(r@) == self@.values,
            self.wf() ==> keys_unique(value_entries(r@)),
    {
        &self.value_ids
    }

    /// The stored controllers with their info, one entry per controller.
    pub fn get_controllers(&self) -> (r: &Vec<(Controller, ControllerInfo)>)
        ensures
            map_view(r@) == self@.controllers,
            self.wf() ==> keys_unique(r@),
    {
        &self.controllers
    }

    /// The info of one controller, if it was ever seen ready or has
    /// reported command progress.
    pub fn get_controller_info(&self, controller: &Controller) -> (r: Option<&ControllerInfo>)
        requires
            self.wf(),
        ensures
            match r {
                Some(info) => self@.controllers.dom().contains(*controller)
                    && *info == self@.controllers[*controller],
                None => !self@.controllers.dom().contains(*controller),
            },
    {
        match self.find_controller_index(controller) {
            Some(i) => {
                proof {
                    lemma_key_at(self.controllers@, i as int);
                }
                Some(&self.controllers[i].1)
            },
            None => {
                proof {
                    lemma_key_absent(self.controllers@, *controller);
                }
                None
            },
        }
    }
}

} // verus!
