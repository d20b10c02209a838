//! The node store: an arena of syntax-tree nodes indexed by a dense integer
//! id, with a parallel array of parent ids. There are no owning tree
//! pointers; ancestor traversal is a parent-id chase that terminates at the
//! unique root because every parent id is strictly smaller than its child's.

use vstd::prelude::*;

use crate::ast::AstKind;
use crate::ids::{AstNodeId, BasicBlockId, NodeFlags, ScopeId};

verus! {

/// One semantic node: its stable id, its tag + payload, and its associated
/// scope, control-flow block and flag set. Immutable once created, except for
/// the flags, which later passes may update in place.
pub struct AstNode {
    pub(crate) id: AstNodeId,
    pub(crate) kind: AstKind,
    pub(crate) scope_id: ScopeId,
    pub(crate) cfg_id: BasicBlockId,
    pub(crate) flags: NodeFlags,
}

impl AstNode {
    /// The node's id, as the store assigned it.
    pub closed spec fn spec_id(self) -> AstNodeId {
        self.id
    }

    /// The node's tag + payload.
    pub closed spec fn spec_kind(self) -> AstKind {
        self.kind
    }

    /// The node's owning scope.
    pub closed spec fn spec_scope_id(self) -> ScopeId {
        self.scope_id
    }

    /// The node's control-flow block.
    pub closed spec fn spec_cfg_id(self) -> BasicBlockId {
        self.cfg_id
    }

    /// The node's flag set.
    pub closed spec fn spec_flags(self) -> NodeFlags {
        self.flags
    }

    pub(crate) fn new(
        kind: AstKind,
        scope_id: ScopeId,
        cfg_id: BasicBlockId,
        flags: NodeFlags,
        id: AstNodeId,
    ) -> (n: AstNode)
        ensures
            n.spec_id() == id,
            n.spec_kind() == kind,
            n.spec_scope_id() == scope_id,
            n.spec_cfg_id() == cfg_id,
            n.spec_flags() == flags,
    {
        AstNode { id, kind, scope_id, cfg_id, flags }
    }

    /// The node's id.
    pub fn id(&self) -> (r: AstNodeId)
        ensures
            r == self.spec_id(),
    {
        self.id
    }

    /// The node's control-flow block id.
    pub fn cfg_id(&self) -> (r: BasicBlockId)
        ensures
            r == self.spec_cfg_id(),
    {
        self.cfg_id
    }

    /// The node's tag + payload.
    pub fn kind(&self) -> (r: &AstKind)
        ensures
            *r == self.spec_kind(),
    {
        &self.kind
    }

    /// The node's owning scope id.
    pub fn scope_id(&self) -> (r: ScopeId)
        ensures
            r == self.spec_scope_id(),
    {
        self.scope_id
    }

    /// The node's flag set.
    pub fn flags(&self) -> (r: NodeFlags)
        ensures
            r == self.spec_flags(),
    {
        self.flags
    }

    /// Mutable access to the flag set, the one part of a node later passes
    /// may update in place. Everything else stays as it was.
    pub fn flags_mut(&mut self) -> (r: &mut NodeFlags)
        ensures
            *r == old(self).spec_flags(),
            final(self).spec_flags() == *final(r),
            final(self).spec_id() == old(self).spec_id(),
            final(self).spec_kind() == old(self).spec_kind(),
            final(self).spec_scope_id() == old(self).spec_scope_id(),
            final(self).spec_cfg_id() == old(self).spec_cfg_id(),
    {
        &mut self.flags
    }
}

/// The arena of all nodes of one tree, flattened into a vector, plus the
/// parallel vector of parent ids sharing the same id space.
pub struct AstNodes {
    /// The id of the root node, always a `Program`, once one was added.
    pub(crate) root: Option<AstNodeId>,
    pub(crate) nodes: Vec<AstNode>,
    pub(crate) parent_ids: Vec<Option<AstNodeId>>,
}

impl AstNodes {
    /// How many nodes the store holds; ids `0 .. spec_len()` are exactly the
    /// assigned ones.
    pub closed spec fn spec_len(self) -> nat {
        self.nodes@.len()
    }

    /// The node at id `i`.
    pub closed spec fn spec_node(self, i: int) -> AstNode {
        self.nodes@[i]
    }

    /// The kind of the node at id `i`.
    pub open spec fn spec_kind(self, i: int) -> AstKind {
        self.spec_node(i).spec_kind()
    }

    /// The parent id recorded for id `i`; `None` only for the root.
    pub closed spec fn spec_parent(self, i: int) -> Option<AstNodeId> {
        self.parent_ids@[i]
    }

    /// The id of the root node, if one was added.
    pub closed spec fn spec_root(self) -> Option<AstNodeId> {
        self.root
    }

    /// The two parallel vectors cover the same id space.
    pub closed spec fn lengths_ok(self) -> bool {
        self.parent_ids@.len() == self.nodes@.len()
    }

    /// Well-formedness: each node records its own id; every parent link
    /// points strictly downward in the id space (so parent chains terminate);
    /// a node without a parent is the recorded root; and the recorded root,
    /// if any, is an assigned id without a parent. Construction through
    /// `add_program_node` and `add_node` establishes and preserves this.
    pub open spec fn wf(self) -> bool {
        &&& self.lengths_ok()
        &&& forall|i: int|
            0 <= i < self.spec_len() ==> (#[trigger] self.spec_node(i)).spec_id() == i
        &&& forall|i: int|
            0 <= i < self.spec_len() ==> match #[trigger] self.spec_parent(i) {
                Some(p) => p < i,
                None => (self.spec_root() matches Some(r) && r == i),
            }
        &&& match self.spec_root() {
            Some(r) => r < self.spec_len() && self.spec_parent(r as int) is None,
            None => true,
        }
    }

    /// The chain of ancestor ids of node `i`: its parent first, then that
    /// node's parent, and so on up to the root. On a store that is not
    /// well-formed the chase is cut off as soon as a parent link does not
    /// point downward, so the sequence is always finite.
    pub open spec fn spec_ancestors(self, i: int) -> Seq<AstNodeId>
        decreases i,
    {
        if 0 <= i < self.spec_len() {
            match self.spec_parent(i) {
                None => Seq::empty(),
                Some(p) => if p < i {
                    seq![p] + self.spec_ancestors(p as int)
                } else {
                    seq![p]
                },
            }
        } else {
            Seq::empty()
        }
    }

    /// A node's depth: how many ancestors stand between it and the root,
    /// the root itself included.
    pub open spec fn spec_depth(self, i: int) -> nat {
        self.spec_ancestors(i).len()
    }

    /// The nodes of the store, in id order.
    pub fn iter(&self) -> (r: &Vec<AstNode>)
        ensures
            r@.len() == self.spec_len(),
            forall|i: int| 0 <= i < r@.len() ==> r@[i] == self.spec_node(i),
    {
        &self.nodes
    }

    /// How many nodes the store holds.
    pub fn len(&self) -> (r: usize)
        ensures
            r == self.spec_len(),
    {
        self.nodes.len()
    }

    /// Whether the store holds no node yet.
    pub fn is_empty(&self) -> (r: bool)
        ensures
            r == (self.spec_len() == 0),
    {
        self.nodes.len() == 0
    }

    /// The kind of the node with the given id.
    pub fn kind(&self, ast_node_id: AstNodeId) -> (r: &AstKind)
        requires
            ast_node_id < self.spec_len(),
        ensures
            *r == self.spec_kind(ast_node_id as int),
    {
        &self.nodes[ast_node_id].kind
    }

    /// The parent id of the given node; `None` for the root.
    pub fn parent_id(&self, ast_node_id: AstNodeId) -> (r: Option<AstNodeId>)
        requires
            self.wf(),
            ast_node_id < self.spec_len(),
        ensures
            r == self.spec_parent(ast_node_id as int),
            match r {
                Some(p) => p < ast_node_id,
                None => self.spec_root() == Some(ast_node_id),
            },
    {
        self.parent_ids[ast_node_id]
    }

    /// The kind of the given node's parent; `None` for the root.
    pub fn parent_kind(&self, ast_node_id: AstNodeId) -> (r: Option<&AstKind>)
        requires
            self.wf(),
            ast_node_id < self.spec_len(),
        ensures
            match r {
                Some(k) => self.spec_parent(ast_node_id as int) matches Some(p) && *k
                    == self.spec_kind(p as int),
                None => self.spec_parent(ast_node_id as int) is None,
            },
    {
        match self.parent_id(ast_node_id) {
            Some(p) => Some(self.kind(p)),
            None => None,
        }
    }

    /// The given node's parent node; `None` for the root.
    pub fn parent_node(&self, ast_node_id: AstNodeId) -> (r: Option<&AstNode>)
        requires
            self.wf(),
            ast_node_id < self.spec_len(),
        ensures
            match r {
                Some(n) => self.spec_parent(ast_node_id as int) matches Some(p) && *n
                    == self.spec_node(p as int),
                None => self.spec_parent(ast_node_id as int) is None,
            },
    {
        match self.parent_id(ast_node_id) {
            Some(p) => Some(self.get_node(p)),
            None => None,
        }
    }

    /// The node with the given id.
    pub fn get_node(&self, ast_node_id: AstNodeId) -> (r: &AstNode)
        requires
            ast_node_id < self.spec_len(),
        ensures
            *r == self.spec_node(ast_node_id as int),
    {
        &self.nodes[ast_node_id]
    }

    /// Mutable access to the node with the given id. Only that entry changes;
    /// the parent links and the root stay as they were.
    pub fn get_node_mut(&mut self, ast_node_id: AstNodeId) -> (r: &mut AstNode)
        requires
            ast_node_id < old(self).spec_len(),
        ensures
            *r == old(self).spec_node(ast_node_id as int),
            final(self).spec_len() == old(self).spec_len(),
            final(self).spec_root() == old(self).spec_root(),
            forall|i: int|
                0 <= i < old(self).spec_len() ==> #[trigger] final(self).spec_parent(i) == old(self).spec_parent(i),
            forall|i: int|
                0 <= i < old(self).spec_len() && i != ast_node_id ==> #[trigger] final(self).spec_node(i) == old(self).spec_node(i),
            final(self).spec_node(ast_node_id as int) == *final(r),
            final(self).lengths_ok() == old(self).lengths_ok(),
    {
        &mut self.nodes[ast_node_id]
    }

    /// The id of the root node; `None` while the store is empty.
    pub fn root(&self) -> (r: Option<AstNodeId>)
        ensures
            r == self.spec_root(),
    {
        self.root
    }

    /// The root node itself; `None` while the store is empty.
    pub fn root_node(&self) -> (r: Option<&AstNode>)
        requires
            self.wf(),
        ensures
            match r {
                Some(n) => self.spec_root() matches Some(i) && *n == self.spec_node(i as int),
                None => self.spec_root() is None,
            },
    {
        match self.root {
            Some(i) => Some(self.get_node(i)),
            None => None,
        }
    }

    /// Mutable access to the root node; `None` while the store is empty.
    /// Only the root's entry changes; parent links and the root id stay.
    pub fn root_node_mut(&mut self) -> (r: Option<&mut AstNode>)
        requires
            old(self).wf(),
        ensures
            final(self).spec_len() == old(self).spec_len(),
            final(self).spec_root() == old(self).spec_root(),
            final(self).lengths_ok() == old(self).lengths_ok(),
            forall|i: int|
                0 <= i < old(self).spec_len() ==> #[trigger] final(self).spec_parent(i) == old(self).spec_parent(i),
            match r {
                Some(n) => {
                    &&& old(self).spec_root() matches Some(root_id)
                    &&& *n == old(self).spec_node(root_id as int)
                    &&& final(self).spec_node(root_id as int) == *final(n)
                    &&& forall|i: int|
                        0 <= i < old(self).spec_len() && i != root_id ==> #[trigger] final(self).spec_node(i) == old(self).spec_node(i)
                },
                None => old(self).spec_root() is None && *final(self) == *old(self),
            },
    {
        match self.root {
            Some(i) => Some(self.get_node_mut(i)),
            None => None,
        }
    }

    /// The ancestor ids of the given node, parent first, root last; empty
    /// for the root itself.
    pub fn ancestors(&self, ast_node_id: AstNodeId) -> (r: Vec<AstNodeId>)
        requires
            self.wf(),
            ast_node_id < self.spec_len(),
        ensures
            r@ == self.spec_ancestors(ast_node_id as int),
    {
        let mut r: Vec<AstNodeId> = Vec::new();
        let mut cur: AstNodeId = ast_node_id;
        loop
            invariant
                self.wf(),
                cur < self.spec_len(),
                r@ + self.spec_ancestors(cur as int) == self.spec_ancestors(ast_node_id as int),
            ensures
                r@ == self.spec_ancestors(ast_node_id as int),
            decreases cur,
        {
            match self.parent_id(cur) {
                None => {
                    assert(r@ + self.spec_ancestors(cur as int) =~= r@);
                    break ;
                },
                Some(p) => {
                    r.push(p);
                    assert(r@ + self.spec_ancestors(p as int) =~= self.spec_ancestors(
                        ast_node_id as int,
                    ));
                    cur = p;
                },
            }
        }
        r
    }

    /// Append a node under an existing parent. Its id is the next dense one.
    pub fn add_node(
        &mut self,
        kind: AstKind,
        scope_id: ScopeId,
        parent_node_id: AstNodeId,
        cfg_id: BasicBlockId,
        flags: NodeFlags,
    ) -> (ast_node_id: AstNodeId)
        requires
            old(self).wf(),
            parent_node_id < old(self).spec_len(),
        ensures
            final(self).wf(),
            ast_node_id == old(self).spec_len(),
            final(self).spec_len() == old(self).spec_len() + 1,
            final(self).spec_root() == old(self).spec_root(),
            forall|i: int|
                0 <= i < old(self).spec_len() ==> #[trigger] final(self).spec_node(i) == old(self).spec_node(i),
            forall|i: int|
                0 <= i < old(self).spec_len() ==> #[trigger] final(self).spec_parent(i) == old(self).spec_parent(i),
            final(self).spec_parent(ast_node_id as int) == Some(parent_node_id),
            final(self).spec_kind(ast_node_id as int) == kind,
            final(self).spec_node(ast_node_id as int).spec_scope_id() == scope_id,
            final(self).spec_node(ast_node_id as int).spec_cfg_id() == cfg_id,
            final(self).spec_node(ast_node_id as int).spec_flags() == flags,
            final(self).spec_node(ast_node_id as int).spec_id() == ast_node_id,
    {
        let ast_node_id = self.nodes.len();
        self.parent_ids.push(Some(parent_node_id));
        let node = AstNode::new(kind, scope_id, cfg_id, flags, ast_node_id);
        self.nodes.push(node);
        proof {
            assert forall|i: int| 0 <= i < self.spec_len() implies (#[trigger] self.spec_node(
                i,
            )).spec_id() == i by {
                if i < old(self).spec_len() {
                    assert(self.spec_node(i) == old(self).spec_node(i));
                }
            }
            assert forall|i: int| 0 <= i < self.spec_len() implies match #[trigger] self.spec_parent(
                i,
            ) {
                Some(p) => p < i,
                None => (self.spec_root() matches Some(r) && r == i),
            } by {
                if i < old(self).spec_len() {
                    assert(self.spec_parent(i) == old(self).spec_parent(i));
                }
            }
        }
        ast_node_id
    }

    /// Add the program node, which becomes the unique root. By contract a
    /// root may be assigned only once, so the store must not have one yet
    /// (a well-formed store without a root is still empty).
    pub fn add_program_node(
        &mut self,
        kind: AstKind,
        scope_id: ScopeId,
        cfg_id: BasicBlockId,
        flags: NodeFlags,
    ) -> (ast_node_id: AstNodeId)
        requires
            old(self).wf(),
            old(self).spec_root() is None,
        ensures
            final(self).wf(),
            ast_node_id == old(self).spec_len(),
            final(self).spec_len() == old(self).spec_len() + 1,
            final(self).spec_root() == Some(ast_node_id),
            final(self).spec_parent(ast_node_id as int) is None,
            final(self).spec_kind(ast_node_id as int) == kind,
            final(self).spec_node(ast_node_id as int).spec_scope_id() == scope_id,
            final(self).spec_node(ast_node_id as int).spec_cfg_id() == cfg_id,
            final(self).spec_node(ast_node_id as int).spec_flags() == flags,
            final(self).spec_node(ast_node_id as int).spec_id() == ast_node_id,
    {
        let ast_node_id = self.nodes.len();
        self.parent_ids.push(None);
        self.root = Some(ast_node_id);
        let node = AstNode::new(kind, scope_id, cfg_id, flags, ast_node_id);
        self.nodes.push(node);
        proof {
            assert forall|i: int| 0 <= i < self.spec_len() implies (#[trigger] self.spec_node(
                i,
            )).spec_id() == i by {
                if i < old(self).spec_len() {
                    assert(self.spec_node(i) == old(self).spec_node(i));
                }
            }
            assert forall|i: int| 0 <= i < self.spec_len() implies match #[trigger] self.spec_parent(
                i,
            ) {
                Some(p) => p < i,
                None => (self.spec_root() matches Some(r) && r == i),
            } by {
                if i < old(self).spec_len() {
                    assert(self.spec_parent(i) == old(self).spec_parent(i));
                }
            }
        }
        ast_node_id
    }

    /// Reserve room for `additional` more nodes; the contents stay as they
    /// were.
    pub fn reserve(&mut self, additional: usize)
        ensures
            final(self).spec_len() == old(self).spec_len(),
            final(self).spec_root() == old(self).spec_root(),
            forall|i: int|
                0 <= i < old(self).spec_len() ==> #[trigger] final(self).spec_node(i) == old(self).spec_node(i),
            forall|i: int|
                0 <= i < old(self).spec_len() ==> #[trigger] final(self).spec_parent(i) == old(self).spec_parent(i),
            old(self).lengths_ok() ==> final(self).lengths_ok(),
            old(self).wf() ==> final(self).wf(),
    {
        self.nodes.reserve(additional);
        self.parent_ids.reserve(additional);
        proof {
            if old(self).wf() {
                assert forall|i: int| 0 <= i < self.spec_len() implies (#[trigger] self.spec_node(
                    i,
                )).spec_id() == i by {
                    assert(self.spec_node(i) == old(self).spec_node(i));
                }
                assert forall|i: int|
                    0 <= i < self.spec_len() implies match #[trigger] self.spec_parent(i) {
                    Some(p) => p < i,
                    None => (self.spec_root() matches Some(r) && r == i),
                } by {
                    assert(self.spec_parent(i) == old(self).spec_parent(i));
                }
            }
        }
    }
}

impl AstNodes {
    /// Walk up the tree from `node_id`: the returned iterator yields the node
    /// itself first, then each parent in turn, ending at the root.
    pub fn iter_parents<'s>(&'s self, node_id: AstNodeId) -> (r: AstNodeParentIter<'s>)
        requires
            self.wf(),
            node_id < self.spec_len(),
        ensures
            r.wf(),
            r.spec_nodes() == *self,
            r.remaining() == seq![node_id] + self.spec_ancestors(node_id as int),
    {
        AstNodeParentIter { curr: Some(node_id), nodes: self }
    }

    /// Id assignment is dense and injective: in a well-formed store the node
    /// at position `i` carries exactly id `i`, so distinct positions carry
    /// distinct ids and the assigned ids are exactly `0 .. len`.
    pub proof fn lemma_ids_dense(&self, i: int, j: int)
        requires
            self.wf(),
            0 <= i < self.spec_len(),
            0 <= j < self.spec_len(),
        ensures
            self.spec_node(i).spec_id() == i,
            i != j ==> self.spec_node(i).spec_id() != self.spec_node(j).spec_id(),
    {
    }

    /// Every node without a parent is the one recorded root: two parentless
    /// ids in a well-formed store are the same id.
    pub proof fn lemma_root_unique(&self, i: int, j: int)
        requires
            self.wf(),
            0 <= i < self.spec_len(),
            0 <= j < self.spec_len(),
            self.spec_parent(i) is None,
            self.spec_parent(j) is None,
        ensures
            i == j,
            self.spec_root() == Some(i as AstNodeId),
    {
    }

    /// In a well-formed store the ancestor chain of any node with a parent
    /// ends at the recorded root, after exactly as many steps as the node's
    /// depth; the chain of the root itself is empty.
    pub proof fn lemma_ancestors_reach_root(&self, i: int)
        requires
            self.wf(),
            0 <= i < self.spec_len(),
        ensures
            self.spec_ancestors(i).len() == self.spec_depth(i),
            self.spec_parent(i) is None ==> self.spec_ancestors(i).len() == 0,
            self.spec_parent(i) is Some ==> {
                &&& self.spec_ancestors(i).len() >= 1
                &&& self.spec_root() == Some(self.spec_ancestors(i).last())
                &&& self.spec_parent(self.spec_ancestors(i).last() as int) is None
            },
        decreases i,
    {
        match self.spec_parent(i) {
            None => {},
            Some(p) => {
                assert(p < i);
                self.lemma_ancestors_reach_root(p as int);
                if self.spec_parent(p as int) is None {
                    assert(self.spec_ancestors(i) =~= seq![p]);
                    assert(self.spec_root() == Some(p));
                } else {
                    assert(self.spec_ancestors(i).last() == self.spec_ancestors(p as int).last());
                }
            },
        }
    }

    /// Every ancestor chain stays inside the assigned id space.
    pub proof fn lemma_ancestors_in_bounds(&self, i: int)
        requires
            self.wf(),
            0 <= i < self.spec_len(),
        ensures
            forall|k: int|
                0 <= k < self.spec_ancestors(i).len() ==> #[trigger] self.spec_ancestors(i)[k]
                    < self.spec_len(),
        decreases i,
    {
        match self.spec_parent(i) {
            None => {},
            Some(p) => {
                assert(p < i);
                self.lemma_ancestors_in_bounds(p as int);
                assert forall|k: int| 0 <= k < self.spec_ancestors(i).len() implies #[trigger] self.spec_ancestors(
                    i,
                )[k] < self.spec_len() by {
                    if k > 0 {
                        assert(self.spec_ancestors(i)[k] == self.spec_ancestors(p as int)[k - 1]);
                    }
                }
            },
        }
    }
}

/// An iterator over a node and its chain of parents, ending at the root.
pub struct AstNodeParentIter<'s> {
    pub(crate) curr: Option<AstNodeId>,
    pub(crate) nodes: &'s AstNodes,
}

impl<'s> AstNodeParentIter<'s> {
    /// The store the iterator walks.
    pub closed spec fn spec_nodes(self) -> AstNodes {
        *self.nodes
    }

    /// The id the next call to `next` will yield, if any.
    pub closed spec fn spec_curr(self) -> Option<AstNodeId> {
        self.curr
    }

    /// The iterator is over a well-formed store and stands on an assigned id.
    pub open spec fn wf(self) -> bool {
        &&& self.spec_nodes().wf()
        &&& match self.spec_curr() {
            Some(c) => c < self.spec_nodes().spec_len(),
            None => true,
        }
    }

    /// The ids the iterator has still to yield, in order.
    pub open spec fn remaining(self) -> Seq<AstNodeId> {
        match self.spec_curr() {
            None => Seq::empty(),
            Some(c) => seq![c] + self.spec_nodes().spec_ancestors(c as int),
        }
    }

    /// Yield the node the iterator stands on and move to its parent; `None`
    /// once the chain is exhausted.
    pub fn next(&mut self) -> (r: Option<&'s AstNode>)
        requires
            old(self).wf(),
        ensures
            final(self).wf(),
            final(self).spec_nodes() == old(self).spec_nodes(),
            match r {
                None => old(self).remaining().len() == 0 && final(self).remaining()
                    == old(self).remaining(),
                Some(node) => {
                    &&& old(self).remaining().len() > 0
                    &&& *node == old(self).spec_nodes().spec_node(old(self).remaining()[0] as int)
                    &&& final(self).remaining() == old(self).remaining().drop_first()
                },
            },
    {
        match self.curr {
            None => None,
            Some(c) => {
                let node = self.nodes.get_node(c);
                self.curr = self.nodes.parent_id(c);
                proof {
                    assert(self.remaining() =~= old(self).remaining().drop_first());
                }
                Some(node)
            },
        }
    }
}

impl Default for AstNodes {
    /// An empty store: no nodes, no root.
    fn default() -> (r: Self)
        ensures
            r.wf(),
            r.spec_len() == 0,
            r.spec_root() is None,
    {
        AstNodes { root: None, nodes: Vec::new(), parent_ids: Vec::new() }
    }
}

} // verus!
