//! Arena storage for the node tree: nodes are addressed by index and linked
//! to their parent, siblings and children.

use vstd::prelude::*;

verus! {

/// Index of a node in its arena.
#[derive(Debug, Clone, Copy, PartialEq, Eq, Structural, Hash, PartialOrd, Ord)]
pub struct NodeId {
    pub index: usize,
}

impl NodeId {
    /// The id of the root node.
    pub fn zero() -> (id: NodeId)
        ensures
            id.index == 0,
    {
        NodeId { index: 0 }
    }

    /// The id of the node at position `value`.
    pub fn new(value: usize) -> (id: NodeId)
        ensures
            id.index == value,
    {
        NodeId { index: value }
    }

    /// The position of the node in its arena.
    pub fn index(&self) -> (index: usize)
        ensures
            index == self.index,
    {
        self.index
    }
}

/// The links of one node.
#[derive(Debug, Clone, Copy, PartialEq, Eq, Structural, Hash)]
pub struct Node {
    pub parent: Option<NodeId>,
    pub previous_sibling: Option<NodeId>,
    pub next_sibling: Option<NodeId>,
    pub first_child: Option<NodeId>,
    pub last_child: Option<NodeId>,
}

impl Node {
    /// A node without any link.
    pub fn root() -> (node: Node)
        ensures
            node == (Node {
                parent: None,
                previous_sibling: None,
                next_sibling: None,
                first_child: None,
                last_child: None,
            }),
    {
        Node {
            parent: None,
            previous_sibling: None,
            next_sibling: None,
            first_child: None,
            last_child: None,
        }
    }
}

/// The shape of a node tree. Nodes are stored in document order, so a
/// node's children and its later siblings have larger indices than the node.
#[derive(Debug)]
pub struct NodeHierarchy {
    pub internal: Vec<Node>,
}

/// One value per node of a hierarchy, addressed by the same ids.
#[derive(Debug)]
pub struct NodeDataContainer<T> {
    pub internal: Vec<T>,
}

impl<T> View for NodeDataContainer<T> {
    type V = Seq<T>;

    open spec fn view(&self) -> Seq<T> {
        self.internal@
    }
}

impl<T> NodeDataContainer<T> {
    pub fn new(data: Vec<T>) -> (container: NodeDataContainer<T>)
        ensures
            container@ == data@,
    {
        NodeDataContainer { internal: data }
    }

    pub fn len(&self) -> (n: usize)
        ensures
            n == self@.len(),
    {
        self.internal.len()
    }

    /// The value stored for `id`, if the container has one.
    pub fn get(&self, id: NodeId) -> (value: Option<&T>)
        ensures
            value == if id.index < self@.len() {
                Some(&self@[id.index as int])
            } else {
                None
            },
    {
        if id.index < self.internal.len() {
            Some(&self.internal[id.index])
        } else {
            None
        }
    }
}

impl View for NodeHierarchy {
    type V = Seq<Node>;

    open spec fn view(&self) -> Seq<Node> {
        self.internal@
    }
}

/// Whether `link` is absent or points to a node that comes after `from`
/// within an arena of `len` nodes.
pub open spec fn is_forward_link(link: Option<NodeId>, from: int, len: nat) -> bool {
    match link {
        Some(to) => from < to.index < len,
        None => true,
    }
}

/// The nodes reached from `start` by following `next_sibling` links, in
/// order. The walk ends at a missing link or at one that does not point
/// forward.
pub open spec fn siblings_from(nodes: Seq<Node>, start: Option<NodeId>) -> Seq<NodeId>
    decreases
        match start {
            Some(id) => nodes.len() - id.index,
            None => 0,
        },
{
    match start {
        Some(id) => if id.index < nodes.len() {
            let next = nodes[id.index as int].next_sibling;
            if next is Some && is_forward_link(next, id.index as int, nodes.len()) {
                seq![id] + siblings_from(nodes, next)
            } else {
                seq![id]
            }
        } else {
            Seq::empty()
        },
        None => Seq::empty(),
    }
}

impl NodeHierarchy {
    pub fn new(nodes: Vec<Node>) -> (hierarchy: NodeHierarchy)
        ensures
            hierarchy@ == nodes@,
    {
        NodeHierarchy { internal: nodes }
    }

    pub fn len(&self) -> (n: usize)
        ensures
            n == self@.len(),
    {
        self.internal.len()
    }

    /// Every `first_child` and `next_sibling` link points forward, to a
    /// node of the arena.
    pub open spec fn wf(&self) -> bool {
        forall|i: int|
            0 <= i < self@.len() ==> {
                &&& is_forward_link((#[trigger] self@[i]).first_child, i, self@.len())
                &&& is_forward_link(self@[i].next_sibling, i, self@.len())
            }
    }

    /// Whether every `first_child` and `next_sibling` link points
    /// forward, to a node of the arena.
    pub fn is_well_formed(&self) -> (ok: bool)
        ensures
            ok == self.wf(),
    {
        let len = self.internal.len();
        let mut i: usize = 0;
        while i < len
            invariant
                i <= len,
                len == self@.len(),
                forall|k: int|
                    0 <= k < i ==> {
                        &&& is_forward_link((#[trigger] self@[k]).first_child, k, self@.len())
                        &&& is_forward_link(self@[k].next_sibling, k, self@.len())
                    },
            decreases len - i,
        {
            let node = &self.internal[i];
            let first_ok = match node.first_child {
                Some(to) => i < to.index && to.index < len,
                None => true,
            };
            let next_ok = match node.next_sibling {
                Some(to) => i < to.index && to.index < len,
                None => true,
            };
            if !(first_ok && next_ok) {
                return false;
            }
            i = i + 1;
        }
        true
    }

    /// The direct children of `parent`, in document order.
    pub open spec fn children_of(&self, parent: NodeId) -> Seq<NodeId> {
        if parent.index < self@.len() {
            let first = self@[parent.index as int].first_child;
            if is_forward_link(first, parent.index as int, self@.len()) {
                siblings_from(self@, first)
            } else {
                Seq::empty()
            }
        } else {
            Seq::empty()
        }
    }

    /// The direct children of `parent`, in document order.
    pub fn children(&self, parent: NodeId) -> (children: Vec<NodeId>)
        requires
            self.wf(),
            parent.index < self@.len(),
        ensures
            children@ == self.children_of(parent),
    {
        let mut children: Vec<NodeId> = Vec::new();
        let mut current = self.internal[parent.index].first_child;
        loop
            invariant
                self.wf(),
                is_forward_link(current, parent.index as int, self@.len()),
                self.children_of(parent) == children@ + siblings_from(self@, current),
            ensures
                children@ == self.children_of(parent),
            decreases
                match current {
                    Some(id) => self@.len() - id.index,
                    None => 0,
                },
        {
            match current {
                Some(id) => {
                    let next = self.internal[id.index].next_sibling;
                    proof {
                        let rest = siblings_from(self@, current);
                        if next is Some {
                            assert(rest == seq![id] + siblings_from(self@, next));
                            assert(children@.push(id) + siblings_from(self@, next) =~= children@
                                + rest);
                        } else {
                            assert(rest == seq![id]);
                            assert(siblings_from(self@, next) == Seq::<NodeId>::empty());
                            assert(children@.push(id) + siblings_from(self@, next) =~= children@
                                + rest);
                        }
                    }
                    children.push(id);
                    current = next;
                },
                None => {
                    assert(children@ + siblings_from(self@, current) =~= children@);
                    break;
                },
            }
        }
        children
    }

    /// Every child of a node lies after it, inside the arena.
    pub proof fn lemma_children_follow_parent(&self, parent: NodeId)
        requires
            self.wf(),
        ensures
            forall|k: int|
                0 <= k < self.children_of(parent).len() ==> parent.index < (
                #[trigger] self.children_of(parent)[k]).index < self@.len(),
    {
        if parent.index < self@.len() {
            let first = self@[parent.index as int].first_child;
            lemma_siblings_follow(self@, first, parent.index as int);
        }
    }
}

/// Every node of a sibling walk lies after `from` if the walk's start does.
pub proof fn lemma_siblings_follow(nodes: Seq<Node>, start: Option<NodeId>, from: int)
    requires
        is_forward_link(start, from, nodes.len()),
    ensures
        forall|k: int|
            0 <= k < siblings_from(nodes, start).len() ==> from < (#[trigger] siblings_from(
                nodes,
                start,
            )[k]).index < nodes.len(),
    decreases
        match start {
            Some(id) => nodes.len() - id.index,
            None => 0,
        },
{
    match start {
        Some(id) => {
            let next = nodes[id.index as int].next_sibling;
            if next is Some && is_forward_link(next, id.index as int, nodes.len()) {
                lemma_siblings_follow(nodes, next, id.index as int);
                let rest = siblings_from(nodes, next);
                assert forall|k: int| 0 <= k < siblings_from(nodes, start).len() implies from < (
                #[trigger] siblings_from(nodes, start)[k]).index < nodes.len() by {
                    if k > 0 {
                        assert(siblings_from(nodes, start)[k] == rest[k - 1]);
                    }
                }
            }
        },
        None => {},
    }
}

} // verus!
