//! The scope/symbol service's read-only interface, as the analyzer consumes
//! it: each declared binding has a unique symbol id pointing at its
//! declaration node, and each resolved use-site is a reference pointing at
//! the node where the use occurs.

use vstd::prelude::*;

use crate::ids::{AstNodeId, ReferenceId, SymbolId};
use crate::node::AstNodes;

verus! {

/// One use-site of a name, resolved back to the node id where it occurs.
pub struct Reference {
    pub(crate) node_id: AstNodeId,
}

impl Reference {
    /// The id of the node where the use occurs.
    pub closed spec fn spec_node_id(self) -> AstNodeId {
        self.node_id
    }

    /// Make a reference that occurs at the given node.
    pub fn new(node_id: AstNodeId) -> (r: Reference)
        ensures
            r.spec_node_id() == node_id,
    {
        Reference { node_id }
    }

    /// The id of the node where the use occurs.
    pub fn node_id(&self) -> (r: AstNodeId)
        ensures
            r == self.spec_node_id(),
    {
        self.node_id
    }
}

/// The symbol table: per symbol its declaration node and the list of
/// references that resolve to it, plus the reference table itself.
pub struct Scoping {
    pub(crate) symbol_declarations: Vec<AstNodeId>,
    pub(crate) symbol_references: Vec<Vec<ReferenceId>>,
    pub(crate) references: Vec<Reference>,
}

impl Scoping {
    /// How many symbols are declared; symbol ids are `0 .. spec_symbols_len()`.
    pub closed spec fn spec_symbols_len(self) -> nat {
        self.symbol_declarations@.len()
    }

    /// How many references exist; reference ids are
    /// `0 .. spec_references_len()`.
    pub closed spec fn spec_references_len(self) -> nat {
        self.references@.len()
    }

    /// The declaration node of symbol `s`.
    pub closed spec fn spec_declaration(self, s: int) -> AstNodeId {
        self.symbol_declarations@[s]
    }

    /// The reference ids that resolve to symbol `s`.
    pub closed spec fn spec_resolved_references(self, s: int) -> Seq<ReferenceId> {
        self.symbol_references@[s]@
    }

    /// The node id where reference `r` occurs.
    pub closed spec fn spec_reference_node(self, r: int) -> AstNodeId {
        self.references@[r].spec_node_id()
    }

    /// Internal consistency: the per-symbol tables are parallel, the id
    /// spaces fit their integer types, and every resolved reference id is an
    /// existing reference.
    pub closed spec fn wf(self) -> bool {
        &&& self.symbol_references@.len() == self.symbol_declarations@.len()
        &&& self.symbol_declarations@.len() <= u32::MAX
        &&& self.references@.len() <= u32::MAX
        &&& forall|s: int, k: int|
            0 <= s < self.symbol_declarations@.len() && 0 <= k < self.symbol_references@[s]@.len()
                ==> (#[trigger] self.symbol_references@[s]@[k]) < self.references@.len()
    }

    /// Every resolved reference id of every symbol is an existing reference.
    pub proof fn lemma_wf_resolved_reference_in_bounds(&self, s: int, k: int)
        requires
            self.wf(),
            0 <= s < self.spec_symbols_len(),
            0 <= k < self.spec_resolved_references(s).len(),
        ensures
            self.spec_resolved_references(s)[k] < self.spec_references_len(),
    {
    }

    /// The table speaks only of nodes the given store holds: every
    /// declaration site and every use-site is an assigned node id.
    pub open spec fn valid_for(self, nodes: AstNodes) -> bool {
        &&& self.wf()
        &&& forall|s: int|
            0 <= s < self.spec_symbols_len() ==> #[trigger] self.spec_declaration(s)
                < nodes.spec_len()
        &&& forall|r: int|
            0 <= r < self.spec_references_len() ==> #[trigger] self.spec_reference_node(r)
                < nodes.spec_len()
    }

    /// An empty table: no symbols, no references.
    pub fn new() -> (r: Scoping)
        ensures
            r.wf(),
            r.spec_symbols_len() == 0,
            r.spec_references_len() == 0,
    {
        Scoping { symbol_declarations: Vec::new(), symbol_references: Vec::new(), references: Vec::new() }
    }

    /// How many symbols are declared.
    pub fn symbols_len(&self) -> (r: usize)
        ensures
            r == self.spec_symbols_len(),
    {
        self.symbol_declarations.len()
    }

    /// How many references exist.
    pub fn references_len(&self) -> (r: usize)
        ensures
            r == self.spec_references_len(),
    {
        self.references.len()
    }

    /// The node id where symbol `symbol_id` is declared.
    pub fn symbol_declaration(&self, symbol_id: SymbolId) -> (r: AstNodeId)
        requires
            symbol_id < self.spec_symbols_len(),
        ensures
            r == self.spec_declaration(symbol_id as int),
    {
        self.symbol_declarations[symbol_id as usize]
    }

    /// The reference ids that resolve to symbol `symbol_id`.
    pub fn get_resolved_reference_ids(&self, symbol_id: SymbolId) -> (r: &Vec<ReferenceId>)
        requires
            self.wf(),
            symbol_id < self.spec_symbols_len(),
        ensures
            r@ == self.spec_resolved_references(symbol_id as int),
    {
        &self.symbol_references[symbol_id as usize]
    }

    /// The reference with the given id.
    pub fn get_reference(&self, reference_id: ReferenceId) -> (r: &Reference)
        requires
            reference_id < self.spec_references_len(),
        ensures
            r.spec_node_id() == self.spec_reference_node(reference_id as int),
    {
        &self.references[reference_id as usize]
    }

    /// Declare a new symbol with the given declaration node; its id is the
    /// next free one.
    pub fn add_symbol(&mut self, declaration: AstNodeId) -> (symbol_id: SymbolId)
        requires
            old(self).wf(),
            old(self).spec_symbols_len() < u32::MAX,
        ensures
            final(self).wf(),
            symbol_id == old(self).spec_symbols_len(),
            final(self).spec_symbols_len() == old(self).spec_symbols_len() + 1,
            final(self).spec_references_len() == old(self).spec_references_len(),
            final(self).spec_declaration(symbol_id as int) == declaration,
            final(self).spec_resolved_references(symbol_id as int) == Seq::<ReferenceId>::empty(),
            forall|s: int|
                0 <= s < old(self).spec_symbols_len() ==> #[trigger] final(self).spec_declaration(s)
                    == old(self).spec_declaration(s) && final(self).spec_resolved_references(s)
                    == old(self).spec_resolved_references(s),
            forall|r: int|
                0 <= r < old(self).spec_references_len() ==> #[trigger] final(self).spec_reference_node(r) == old(self).spec_reference_node(r),
    {
        let symbol_id = self.symbol_declarations.len() as u32;
        self.symbol_declarations.push(declaration);
        self.symbol_references.push(Vec::new());
        symbol_id
    }

    /// Record a new reference occurring at the given node; its id is the
    /// next free one.
    pub fn add_reference(&mut self, node_id: AstNodeId) -> (reference_id: ReferenceId)
        requires
            old(self).wf(),
            old(self).spec_references_len() < u32::MAX,
        ensures
            final(self).wf(),
            reference_id == old(self).spec_references_len(),
            final(self).spec_symbols_len() == old(self).spec_symbols_len(),
            final(self).spec_references_len() == old(self).spec_references_len() + 1,
            final(self).spec_reference_node(reference_id as int) == node_id,
            forall|s: int|
                0 <= s < old(self).spec_symbols_len() ==> #[trigger] final(self).spec_declaration(s)
                    == old(self).spec_declaration(s) && final(self).spec_resolved_references(s)
                    == old(self).spec_resolved_references(s),
            forall|r: int|
                0 <= r < old(self).spec_references_len() ==> #[trigger] final(self).spec_reference_node(r) == old(self).spec_reference_node(r),
    {
        let reference_id = self.references.len() as u32;
        self.references.push(Reference { node_id });
        reference_id
    }

    /// Resolve an existing reference to an existing symbol: append it to the
    /// symbol's list of resolved references.
    pub fn add_resolved_reference(&mut self, symbol_id: SymbolId, reference_id: ReferenceId)
        requires
            old(self).wf(),
            symbol_id < old(self).spec_symbols_len(),
            reference_id < old(self).spec_references_len(),
        ensures
            final(self).wf(),
            final(self).spec_symbols_len() == old(self).spec_symbols_len(),
            final(self).spec_references_len() == old(self).spec_references_len(),
            final(self).spec_resolved_references(symbol_id as int) == old(self).spec_resolved_references(symbol_id as int).push(reference_id),
            forall|s: int|
                0 <= s < old(self).spec_symbols_len() ==> #[trigger] final(self).spec_declaration(s)
                    == old(self).spec_declaration(s),
            forall|s: int|
                0 <= s < old(self).spec_symbols_len() && s != symbol_id ==> #[trigger] final(self).spec_resolved_references(s) == old(self).spec_resolved_references(s),
            forall|r: int|
                0 <= r < old(self).spec_references_len() ==> #[trigger] final(self).spec_reference_node(r) == old(self).spec_reference_node(r),
    {
        let refs = &mut self.symbol_references[symbol_id as usize];
        refs.push(reference_id);
    }
}

} // verus!
