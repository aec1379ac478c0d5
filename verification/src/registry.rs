//! The registry of nodes that the host owns.

use vstd::prelude::*;
use crate::node::NetworkNode;

verus! {

/// The identity of a node: its place in the registry.
#[derive(Debug, Clone, Copy, PartialEq, Eq, Structural, Hash)]
pub struct NodeId(pub usize);

/// What the transport tells the host.
#[derive(Debug, Clone, Copy, PartialEq, Eq, Structural)]
pub enum NetworkEvent {
    /// A connection was accepted or established; its node has this
    /// identity.
    Connected(NodeId),
}

/// A node and the node that it was adopted under, if any.
pub struct NodeEntry {
    pub node: NetworkNode,
    pub parent: Option<NodeId>,
}

/// The nodes of a host, by identity. Nodes are added and never moved, so an
/// identity stays valid and is never given twice.
pub struct NodeRegistry {
    entries: Vec<NodeEntry>,
}

impl View for NodeRegistry {
    type V = Seq<NodeEntry>;

    /// The entries of the registry; the identity of each is its index.
    closed spec fn view(&self) -> Seq<NodeEntry> {
        self.entries@
    }
}

/// Whether every parent among `entries` stands before its children.
pub open spec fn parents_first(entries: Seq<NodeEntry>) -> bool {
    forall|i: int|
        0 <= i < entries.len() ==> ((#[trigger] entries[i]).parent matches Some(parent)
            ==> parent.0 < i)
}

impl NodeRegistry {
    /// Every parent was registered before its children: no node is its own
    /// ancestor. A new registry is well formed and every operation keeps it
    /// so.
    pub open spec fn wf(&self) -> bool {
        parents_first(self@)
    }

    /// Whether `id` names a node of the registry.
    pub open spec fn contains(&self, id: NodeId) -> bool {
        id.0 < self@.len()
    }

    /// Whether `child` is a node that was adopted under `parent`.
    pub open spec fn is_child_of(&self, child: NodeId, parent: NodeId) -> bool {
        self.contains(child) && self@[child.0 as int].parent == Some(parent)
    }

    /// Whether `self` holds everything that `before` held, unchanged and
    /// under the same identities.
    pub open spec fn extends(&self, before: &NodeRegistry) -> bool {
        &&& before@.len() <= self@.len()
        &&& self@.subrange(0, before@.len() as int) == before@
    }

    /// An empty registry.
    pub fn new() -> (registry: NodeRegistry)
        ensures
            registry@.len() == 0,
            registry.wf(),
    {
        NodeRegistry { entries: Vec::new() }
    }

    /// The number of nodes.
    pub fn len(&self) -> (len: usize)
        ensures
            len == self@.len(),
    {
        self.entries.len()
    }

    /// Registers a node of its own, under no other. Its identity is new.
    pub fn insert(&mut self, node: NetworkNode) -> (id: NodeId)
        requires
            old(self).wf(),
        ensures
            final(self).wf(),
            final(self).extends(old(self)),
            final(self)@.len() == old(self)@.len() + 1,
            id.0 == old(self)@.len(),
            final(self)@[id.0 as int].node == node,
            final(self)@[id.0 as int].parent.is_none(),
    {
        let id = NodeId(self.entries.len());
        self.entries.push(NodeEntry { node, parent: None });
        assert(self@.subrange(0, id.0 as int) =~= old(self)@);
        id
    }

    /// Registers a node under `parent`. Its identity is new. Where `parent`
    /// is no node of the registry, nothing is registered and the node comes
    /// back.
    pub fn adopt(&mut self, parent: NodeId, node: NetworkNode) -> (res: Result<
        NodeId,
        NetworkNode,
    >)
        requires
            old(self).wf(),
        ensures
            final(self).wf(),
            final(self).extends(old(self)),
            old(self).contains(parent) <==> res is Ok,
            res matches Ok(id) ==> {
                &&& final(self)@.len() == old(self)@.len() + 1
                &&& id.0 == old(self)@.len()
                &&& final(self)@[id.0 as int].node == node
                &&& final(self).is_child_of(id, parent)
            },
            res matches Err(back) ==> back == node && final(self)@ == old(self)@,
    {
        if parent.0 < self.entries.len() {
            let id = NodeId(self.entries.len());
            self.entries.push(NodeEntry { node, parent: Some(parent) });
            assert(self@.subrange(0, id.0 as int) =~= old(self)@);
            Ok(id)
        } else {
            assert(self@.subrange(0, self@.len() as int) =~= self@);
            Err(node)
        }
    }

    /// The node with the given identity.
    pub fn get(&self, id: NodeId) -> (node: Option<&NetworkNode>)
        ensures
            self.contains(id) <==> node is Some,
            node matches Some(found) ==> *found == self@[id.0 as int].node,
    {
        if id.0 < self.entries.len() {
            Some(&self.entries[id.0].node)
        } else {
            None
        }
    }

    /// Whether `self` differs from `before` at most in whether the node
    /// `id` is running.
    pub open spec fn same_but_running(&self, before: &NodeRegistry, id: NodeId) -> bool {
        &&& self@.len() == before@.len()
        &&& forall|i: int|
            0 <= i < self@.len() && i != id.0 ==> (#[trigger] self@[i])
                == before@[i]
        &&& before.contains(id) ==> {
            &&& self@[id.0 as int].parent == before@[id.0 as int].parent
            &&& self@[id.0 as int].node.same_endpoint(&before@[id.0 as int].node)
        }
    }

    /// Starts the node `id`, as [`NetworkNode::start`] does. Says whether
    /// there is such a node; without one nothing changes.
    pub fn start(&mut self, id: NodeId) -> (found: bool)
        requires
            old(self).wf(),
        ensures
            found == old(self).contains(id),
            final(self).same_but_running(old(self), id),
            found ==> final(self)@[id.0 as int].node.running,
            !found ==> final(self)@ == old(self)@,
            final(self).wf(),
    {
        if id.0 < self.entries.len() {
            self.entries[id.0].node.start();
            true
        } else {
            false
        }
    }

    /// Stops the node `id`, as [`NetworkNode::stop`] does. Says whether
    /// there is such a node; without one nothing changes.
    pub fn stop(&mut self, id: NodeId) -> (found: bool)
        requires
            old(self).wf(),
        ensures
            found == old(self).contains(id),
            final(self).same_but_running(old(self), id),
            found ==> !final(self)@[id.0 as int].node.running,
            !found ==> final(self)@ == old(self)@,
            final(self).wf(),
    {
        if id.0 < self.entries.len() {
            self.entries[id.0].node.stop();
            true
        } else {
            false
        }
    }

    /// The node under which the given node was adopted.
    pub fn parent(&self, id: NodeId) -> (parent: Option<NodeId>)
        ensures
            parent == if self.contains(id) {
                self@[id.0 as int].parent
            } else {
                None
            },
    {
        if id.0 < self.entries.len() {
            self.entries[id.0].parent
        } else {
            None
        }
    }

    /// The nodes adopted under the given node, oldest first.
    pub fn children(&self, parent: NodeId) -> (children: Vec<NodeId>)
        ensures
            forall|i: int|
                0 <= i < children@.len() ==> self.is_child_of(#[trigger] children@[i], parent),
            forall|child: NodeId|
                self.is_child_of(child, parent) ==> children@.contains(child),
            forall|i: int, j: int|
                0 <= i < j < children@.len() ==> children@[i].0 < children@[j].0,
    {
        let mut children: Vec<NodeId> = Vec::new();
        let mut i: usize = 0;
        while i < self.entries.len()
            invariant
                i <= self@.len(),
                forall|n: int|
                    0 <= n < children@.len() ==> self.is_child_of(#[trigger] children@[n], parent)
                        && children@[n].0 < i,
                forall|child: NodeId|
                    self.is_child_of(child, parent) && child.0 < i ==> children@.contains(child),
                forall|m: int, n: int|
                    0 <= m < n < children@.len() ==> children@[m].0 < children@[n].0,
            decreases self@.len() - i,
        {
            let is_child = match self.entries[i].parent {
                Some(p) => p.0 == parent.0,
                None => false,
            };
            if is_child {
                let ghost before = children@;
                children.push(NodeId(i));
                assert(children@[before.len() as int] == NodeId(i));
                assert forall|child: NodeId|
                    self.is_child_of(child, parent) && child.0 < i + 1 implies children@.contains(
                    child,
                ) by {
                    if child.0 < i {
                        let n = choose|n: int| 0 <= n < before.len() && before[n] == child;
                        assert(children@[n] == child);
                    } else {
                        assert(children@[before.len() as int] == child);
                    }
                }
            }
            i = i + 1;
        }
        children
    }
}

} // verus!
