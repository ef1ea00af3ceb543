//! Tree-building stage of a document compiler: an execution context that
//! turns a stream of structural events into a layout tree of pages, stacks
//! and paragraphs.
use vstd::prelude::*;

pub mod builder;
pub mod context;
pub mod diag;
pub mod geom;
pub mod laws;
pub mod layout;
pub mod state;

verus! {

} // verus!
