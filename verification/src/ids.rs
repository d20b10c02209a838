//! The integer id spaces that tie the node store, the scope/symbol service
//! and the analyzer together. All structure is relational, through these ids,
//! rather than through owning tree pointers.

use vstd::prelude::*;

verus! {

/// Index of a node in the node store's dense id space.
pub type AstNodeId = usize;

/// Identity of one declared binding, assigned by the scope/symbol service.
pub type SymbolId = u32;

/// Identity of one resolved use-site of a binding.
pub type ReferenceId = u32;

/// Identity of the scope a node belongs to (opaque metadata here).
pub type ScopeId = u32;

/// Identity of a node's control-flow-graph block (opaque metadata here).
pub type BasicBlockId = u32;

/// Small per-node flag set, updated in place by later passes.
pub type NodeFlags = u8;

} // verus!
