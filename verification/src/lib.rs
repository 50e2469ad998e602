//! An abstract syntax array: a flat, index-addressed stand-in for a
//! pointer-linked abstract syntax tree.
//!
//! Nodes live side by side in one contiguous container and point at their
//! syntactic parent by index into that same container, which keeps tree
//! traversal cache-friendly. The [`asa::ASA`] trait is the capability
//! contract any backing container must meet; [`node::Node`] is the record it
//! stores.

use vstd::prelude::*;

pub mod asa;
pub mod node;

verus! {

/// A half-open range `[start, end)` of source offsets: the slice of input
/// text a token or node came from. Created once and never mutated.
pub type Span = core::ops::Range<usize>;

} // verus!
