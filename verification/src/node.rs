//! The unit of storage of the abstract syntax array: the persisted tree
//! node, and the transient descriptor a driver builds it from.

use vstd::prelude::*;
use crate::Span;

verus! {

/// Metadata attached to a raw token while it is classified, before its
/// parent in the array is known. A short-lived staging value: it is consumed
/// exactly once to build a [`Node`] and is never stored in the tree itself.
#[derive(Debug)]
pub struct TokenInfo<Oper> {
    /// the kind of operation the token stands for
    pub oper: Oper,
    /// the location of the token in the source text
    pub span: Span,
    /// the number of operands the token/node consumes
    pub space: u8,
    /// the binding strength of the token
    pub precedence: u8,
}

/// A single node of the abstract syntax array.
///
/// Its position in the array is its identity: other nodes name it by index.
/// No node holds references to its children; the tree shape is expressed
/// solely through the `parent` back-reference.
#[derive(Debug)]
pub struct Node<Token> {
    /// the operator/value payload of the node
    pub token: Token,
    /// the location of the node's token in the source text
    pub span: Span,
    /// the index, within the same array, of this node's syntactic parent;
    /// `None` marks a root
    pub parent: Option<usize>,
    /// the binding strength of the node's token, kept on the node so later
    /// tree rewrites can compare precedences without re-deriving them
    pub precedence: u8,
}

/// The node built from one resolved descriptor: every field is carried over
/// unchanged.
pub open spec fn node_of<Token>(
    token: Token,
    span: Span,
    parent: Option<usize>,
    precedence: u8,
) -> Node<Token> {
    Node { token, span, parent, precedence }
}

impl<Token> Node<Token> {
    /// Creates a new node from a resolved token, its span, its parent index
    /// (if any) and its precedence.
    #[inline]
    pub fn new(token: Token, span: Span, parent: Option<usize>, precedence: u8) -> (r: Self)
        ensures
            r == node_of(token, span, parent, precedence),
    {
        Self { token, span, parent, precedence }
    }
}

} // verus!
