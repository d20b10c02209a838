//! Semantic-analysis substrate for a JavaScript/TypeScript toolchain:
//! a flattened, id-indexed store of syntax-tree nodes with explicit parent
//! links, and a name-preservation analysis that decides which declared
//! bindings must keep their textual name because an anonymous function or
//! class expression would have its `name` property inferred from them.

pub mod ids;
pub mod ast;
pub mod node;
pub mod scoping;
pub mod keep_names;
pub mod prettier;
