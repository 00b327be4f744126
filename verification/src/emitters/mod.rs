//! The emitters: one per syntactic category, each turning a node of the
//! tree into the source text it stands for.
//!
//! An emitter calls the emitters of what its node holds, on the stack of
//! the caller: writing out a tree takes a depth of calls that grows with the
//! depth of the tree, and nothing bounds it but that stack. [`depth`] tells
//! how deep a tree is and writes a program out only within a limit.

use vstd::prelude::*;

pub mod access;
pub mod arguments;
pub mod control;
pub mod definitions;
pub mod depth;
pub mod expression;
pub mod invocation;
pub mod literals;
pub mod operators;
pub mod rescue;

verus! {

/// A node that can be written out as source text.
pub trait Emitter {
    /// The source text of the node.
    spec fn text(&self) -> Seq<char>;

    /// Writes the node out.
    fn emit(&self) -> (r: String)
        ensures
            r@ == self.text(),
    ;
}

} // verus!
