//! The small, self-contained state the printing engine threads through a
//! formatting run: a counter handing out fresh group ids, and the argument
//! flags of one call. The engine itself — documents, comments, layout — is a
//! separate subsystem and not part of this library.

use vstd::prelude::*;

verus! {

/// The id of one printing group; fresh ids come from `GroupIdBuilder`.
pub type GroupId = u32;

/// Hands out fresh, strictly increasing group ids, starting at 1.
pub struct GroupIdBuilder {
    pub(crate) id: GroupId,
}

impl GroupIdBuilder {
    /// The last id handed out; 0 before the first.
    pub closed spec fn spec_id(self) -> GroupId {
        self.id
    }

    /// The next fresh group id: one more than everything handed out so far.
    pub fn next_id(&mut self) -> (r: GroupId)
        requires
            old(self).spec_id() < GroupId::MAX,
        ensures
            final(self).spec_id() == old(self).spec_id() + 1,
            r == final(self).spec_id(),
    {
        self.id += 1;
        self.id
    }
}

impl Default for GroupIdBuilder {
    /// A fresh counter: nothing handed out yet.
    fn default() -> (r: Self)
        ensures
            r.spec_id() == 0,
    {
        GroupIdBuilder { id: 0 }
    }
}

/// The per-call argument flags of the printing engine.
#[derive(Debug)]
pub struct PrettierArgs {
    pub(crate) expand_first_arg: bool,
    pub(crate) expand_last_arg: bool,
}

impl PrettierArgs {
    /// Whether the first call argument is printed expanded.
    pub closed spec fn spec_expand_first_arg(self) -> bool {
        self.expand_first_arg
    }

    /// Whether the last call argument is printed expanded.
    pub closed spec fn spec_expand_last_arg(self) -> bool {
        self.expand_last_arg
    }

    /// Build the flags explicitly.
    pub fn new(expand_first_arg: bool, expand_last_arg: bool) -> (r: Self)
        ensures
            r.spec_expand_first_arg() == expand_first_arg,
            r.spec_expand_last_arg() == expand_last_arg,
    {
        PrettierArgs { expand_first_arg, expand_last_arg }
    }

    /// Whether the first call argument is printed expanded.
    pub fn expand_first_arg(&self) -> (r: bool)
        ensures
            r == self.spec_expand_first_arg(),
    {
        self.expand_first_arg
    }

    /// Whether the last call argument is printed expanded.
    pub fn expand_last_arg(&self) -> (r: bool)
        ensures
            r == self.spec_expand_last_arg(),
    {
        self.expand_last_arg
    }
}

impl Default for PrettierArgs {
    /// Both flags off.
    fn default() -> (r: Self)
        ensures
            !r.spec_expand_first_arg(),
            !r.spec_expand_last_arg(),
    {
        PrettierArgs { expand_first_arg: false, expand_last_arg: false }
    }
}

} // verus!
