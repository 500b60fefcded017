//! Nodes of a trapezoidation graph
//!
//! Nodes are only ever added, never removed, so every [`GenericId`] that was
//! handed out stays valid.

use vstd::prelude::*;

verus! {

/// Identifies a node
///
/// Since nodes can only be added, never removed, a `GenericId` is always
/// going to be valid.
#[derive(Clone, Copy, Debug, Eq, PartialEq, Hash, Structural)]
pub struct GenericId(pub u32);

#[derive(Debug, PartialEq)]
pub enum Node<Branch, Leaf> {
    Branch(BranchNode<Branch>),
    Leaf(LeafNode<Leaf>),
}

#[derive(Debug, PartialEq)]
pub struct BranchNode<T> {
    pub parent: Option<GenericId>,
    pub above: GenericId,
    pub below: GenericId,
    pub branch: T,
}

#[derive(Debug, PartialEq)]
pub struct LeafNode<T> {
    pub parent: Option<GenericId>,
    pub leaf: T,
}

#[derive(Clone, Copy, Debug, Eq, PartialEq, Structural)]
pub enum Relation {
    Above,
    Below,
}

impl<Branch, Leaf> Node<Branch, Leaf> {
    /// The parent of a node, whatever its kind
    pub open spec fn spec_parent(&self) -> Option<GenericId> {
        match self {
            Node::Branch(b) => b.parent,
            Node::Leaf(l) => l.parent,
        }
    }

    /// The same node with another parent
    pub open spec fn with_parent(self, parent: Option<GenericId>) -> Self {
        match self {
            Node::Branch(b) => Node::Branch(BranchNode { parent, ..b }),
            Node::Leaf(l) => Node::Leaf(LeafNode { parent, ..l }),
        }
    }

    pub fn parent(&self) -> (r: &Option<GenericId>)
        ensures
            *r == self.spec_parent(),
    {
        match self {
            Node::Branch(BranchNode { parent, .. }) => parent,
            Node::Leaf(LeafNode { parent, .. }) => parent,
        }
    }

    pub fn parent_mut(&mut self) -> (r: &mut Option<GenericId>)
        ensures
            *r == old(self).spec_parent(),
            *final(self) == old(self).with_parent(*final(r)),
    {
        match self {
            Node::Branch(BranchNode { parent, .. }) => parent,
            Node::Leaf(LeafNode { parent, .. }) => parent,
        }
    }
}

/// The leaves among `nodes`, each with its id, in the order of their ids
pub open spec fn leafs_of<Branch, Leaf>(nodes: Seq<Node<Branch, Leaf>>) -> Seq<(GenericId, Leaf)>
    decreases nodes.len(),
{
    if nodes.len() == 0 {
        Seq::empty()
    } else {
        let before = leafs_of(nodes.drop_last());
        match nodes.last() {
            Node::Leaf(l) => before.push((GenericId((nodes.len() - 1) as u32), l.leaf)),
            Node::Branch(_) => before,
        }
    }
}

/// A growing collection of nodes, each identified by the order of its
/// insertion
pub struct Nodes<Branch, Leaf> {
    map: Vec<Node<Branch, Leaf>>,
    next_id: u32,
}

impl<Branch, Leaf> View for Nodes<Branch, Leaf> {
    type V = Seq<Node<Branch, Leaf>>;

    closed spec fn view(&self) -> Seq<Node<Branch, Leaf>> {
        self.map@
    }
}

impl<Branch, Leaf> Nodes<Branch, Leaf> {
    /// The ids handed out so far are exactly those below the next one
    pub closed spec fn wf(&self) -> bool {
        self.map@.len() == self.next_id as int
    }

    pub fn new() -> (r: Self)
        ensures
            r.wf(),
            r@ == Seq::<Node<Branch, Leaf>>::empty(),
    {
        Nodes { map: Vec::new(), next_id: 0 }
    }

    /// Add a leaf without a parent, under a fresh id
    pub fn insert_leaf(&mut self, leaf: Leaf) -> (id: GenericId)
        requires
            old(self).wf(),
            old(self)@.len() < u32::MAX,
        ensures
            final(self).wf(),
            id.0 == old(self)@.len(),
            final(self)@ == old(self)@.push(Node::Leaf(LeafNode { parent: None, leaf })),
    {
        let id = self.next_id;
        self.next_id = self.next_id + 1;
        self.map.push(Node::Leaf(LeafNode { parent: None, leaf }));
        GenericId(id)
    }

    /// Return a reference to a node
    pub fn get(&self, id: GenericId) -> (r: &Node<Branch, Leaf>)
        requires
            id.0 < self@.len(),
        ensures
            *r == self@[id.0 as int],
    {
        &self.map[id.0 as usize]
    }

    /// Return a mutable reference to a node
    pub fn get_mut(&mut self, id: GenericId) -> (r: &mut Node<Branch, Leaf>)
        requires
            old(self).wf(),
            id.0 < old(self)@.len(),
        ensures
            final(self).wf(),
            *r == old(self)@[id.0 as int],
            final(self)@ == old(self)@.update(id.0 as int, *final(r)),
    {
        vstd::std_specs::vec::vec_index_mut(&mut self.map, id.0 as usize)
    }

    /// All leaves, each with its id, in the order of their ids
    pub fn leafs(&self) -> (r: Vec<(GenericId, &Leaf)>)
        requires
            self.wf(),
        ensures
            r@.len() == leafs_of(self@).len(),
            forall|i: int|
                0 <= i < r@.len() ==> (#[trigger] r@[i]).0 == leafs_of(self@)[i].0 && *r@[i].1
                    == leafs_of(self@)[i].1,
    {
        let mut r: Vec<(GenericId, &Leaf)> = Vec::new();
        let mut i: usize = 0;
        while i < self.map.len()
            invariant
                self.wf(),
                i <= self.map@.len(),
                r@.len() == leafs_of(self@.subrange(0, i as int)).len(),
                forall|k: int|
                    0 <= k < r@.len() ==> (#[trigger] r@[k]).0 == leafs_of(self@.subrange(0, i as int))[k].0
                        && *r@[k].1 == leafs_of(self@.subrange(0, i as int))[k].1,
            decreases self.map@.len() - i,
        {
            proof {
                assert(self@.subrange(0, i + 1).drop_last() =~= self@.subrange(0, i as int));
            }
            match &self.map[i] {
                Node::Leaf(LeafNode { leaf, .. }) => {
                    r.push((GenericId(i as u32), leaf));
                },
                Node::Branch(_) => {},
            }
            i = i + 1;
        }
        proof {
            assert(self@.subrange(0, i as int) =~= self@);
        }
        r
    }
}

} // verus!
