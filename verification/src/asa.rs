//! The abstract syntax array: the capability contract a flat container must
//! meet to stand in for a pointer-linked syntax tree, and its default
//! backing implementation over a growable contiguous vector.

use vstd::prelude::*;
use crate::Span;
use crate::node::{Node, node_of};

verus! {

/// The contract of an abstract syntax array.
///
/// A conforming container stores [`Node`] values contiguously, addressed by
/// index. The container never decides where a node belongs: an external
/// driver picks each node's parent and position, and the container only
/// stores and exposes. Its whole observable state is the spec-level
/// sequence [`ASA::nodes`], and every operation is specified against it.
///
/// The container is deliberately ignorant of tree semantics: it does not
/// check that a stored `parent` index is in bounds, and `insert` shifts
/// elements without rewriting the `parent` fields that pointed at or past
/// the insertion point. Reconciling those references is the caller's job.
pub trait ASA: Sized {
    /// the token/operator type stored within the array
    type Oper;

    /// The mathematical contents of the container: the stored nodes, in
    /// index order.
    spec fn nodes(&self) -> Seq<Node<Self::Oper>>;

    /// Creates the well-defined empty initial state.
    fn empty() -> (r: Self)
        ensures
            r.nodes() == Seq::<Node<Self::Oper>>::empty(),
    ;

    /// Appends `node` as the new highest-index element. Every node already
    /// stored keeps its index and value.
    fn push(&mut self, node: Node<Self::Oper>)
        ensures
            final(self).nodes() == old(self).nodes().push(node),
    ;

    /// Places `node` at `idx`, shifting the elements formerly at
    /// `idx..len` one place to the right. Stored `parent` fields are not
    /// rewritten: after the shift they may point at the wrong element, and
    /// the caller must fix them up.
    fn insert(&mut self, idx: usize, node: Node<Self::Oper>)
        requires
            idx <= old(self).nodes().len(),
        ensures
            final(self).nodes() == old(self).nodes().insert(idx as int, node),
    ;

    /// Returns a mutable reference to the node at `idx`, granting mutation
    /// access to every field so the driver can adjust the tree after the
    /// fact (for instance, re-parent a node). A write through the reference
    /// is the new value at `idx`; all other nodes are untouched.
    fn get(&mut self, idx: usize) -> (node: &mut Node<Self::Oper>)
        requires
            idx < old(self).nodes().len(),
        ensures
            *node == old(self).nodes()[idx as int],
            final(self).nodes() == old(self).nodes().update(idx as int, *final(node)),
    ;

    /// Returns the current number of stored nodes.
    fn len(&self) -> (n: usize)
        ensures
            n == self.nodes().len(),
    ;

    /// Consumes the container and hands its nodes out, in index order.
    fn into_nodes(self) -> (v: Vec<Node<Self::Oper>>)
        ensures
            v@ == self.nodes(),
    ;
}

/// The default backing implementation: a growable contiguous vector.
/// `push` appends, `insert` shifts in place, `get` indexes directly and
/// `len` reports the current size.
impl<Token> ASA for Vec<Node<Token>> {
    type Oper = Token;

    open spec fn nodes(&self) -> Seq<Node<Token>> {
        self@
    }

    #[inline]
    fn empty() -> (r: Self) {
        Vec::new()
    }

    #[inline]
    fn push(&mut self, node: Node<Token>) {
        self.push(node);
    }

    #[inline]
    fn insert(&mut self, idx: usize, node: Node<Token>) {
        self.insert(idx, node);
    }

    #[inline]
    fn get(&mut self, idx: usize) -> (node: &mut Node<Token>) {
        &mut self[idx]
    }

    #[inline]
    fn len(&self) -> (n: usize) {
        self.len()
    }

    #[inline]
    fn into_nodes(self) -> (v: Vec<Node<Token>>) {
        self
    }
}

/// A planned backing store that keeps spare capacity at both ends of its
/// array, so that an insertion near the front can move the offset instead of
/// shifting every element to the right. Only the empty state exists so far;
/// no operation on it is defined yet.
#[allow(dead_code)]
pub struct PaddedVec<Token> {
    offset: usize,
    array: Vec<Token>,
    len: usize,
}

impl<Token> PaddedVec<Token> {
    /// The current number of stored elements.
    pub closed spec fn spec_len(&self) -> nat {
        self.len as nat
    }

    /// Creates a new, empty padded vector.
    #[inline]
    pub fn new() -> (r: Self)
        ensures
            r.spec_len() == 0,
    {
        Self { offset: 0, array: Vec::new(), len: 0 }
    }
}

/// The contents of an abstract syntax array after a run of `push` calls:
/// starting from contents `init`, the nodes of `pushed` are appended one at
/// a time, first to last.
pub open spec fn after_pushes<Token>(
    init: Seq<Node<Token>>,
    pushed: Seq<Node<Token>>,
) -> Seq<Node<Token>>
    decreases pushed.len(),
{
    if pushed.len() == 0 {
        init
    } else {
        after_pushes(init, pushed.drop_last()).push(pushed.last())
    }
}

/// Law: a run of `push` calls appends exactly the pushed nodes, in order.
/// Afterwards the length is the old length plus the number of pushes, every
/// node already stored keeps its index and value, and the `i`-th pushed node
/// stands at index `old_len + i`. From the empty initial state, `len()`
/// equals the number of pushes and the node at index `i` is the `i`-th
/// pushed node.
pub proof fn lemma_pushes_append<Token>(init: Seq<Node<Token>>, pushed: Seq<Node<Token>>)
    ensures
        after_pushes(init, pushed) == init + pushed,
        after_pushes(init, pushed).len() == init.len() + pushed.len(),
        forall|i: int| 0 <= i < init.len() ==> #[trigger] after_pushes(init, pushed)[i] == init[i],
        forall|i: int|
            0 <= i < pushed.len() ==> #[trigger] after_pushes(init, pushed)[init.len() + i]
                == pushed[i],
    decreases pushed.len(),
{
    if pushed.len() == 0 {
        assert(after_pushes(init, pushed) =~= init + pushed);
    } else {
        lemma_pushes_append(init, pushed.drop_last());
        assert(after_pushes(init, pushed) =~= init + pushed);
    }
}

/// Law: `insert(k, n)` splices `n` in at position `k`. The nodes before `k`
/// keep their index and value, `n` stands at `k`, and every node formerly at
/// an index `>= k` reappears one place later, unchanged.
pub proof fn lemma_insert_splices<Token>(s: Seq<Node<Token>>, k: int, n: Node<Token>)
    requires
        0 <= k <= s.len(),
    ensures
        s.insert(k, n).len() == s.len() + 1,
        forall|i: int| 0 <= i < k ==> #[trigger] s.insert(k, n)[i] == s[i],
        s.insert(k, n)[k] == n,
        forall|i: int| k <= i < s.len() ==> s.insert(k, n)[i + 1] == s[i],
{
    s.insert_ensures(k, n);
}

/// The nodes a driver builds from a sequence of
/// (token, span, parent, precedence) descriptor tuples, one node per tuple,
/// in order.
pub open spec fn nodes_of<Token>(descs: Seq<(Token, Span, Option<usize>, u8)>) -> Seq<
    Node<Token>,
> {
    descs.map(|i: int, d: (Token, Span, Option<usize>, u8)| node_of(d.0, d.1, d.2, d.3))
}

/// Law (round trip): building one node per (token, span, parent, precedence)
/// tuple and pushing the nodes in order onto the empty container yields as
/// many nodes as tuples, and the node at index `i` carries exactly the
/// `i`-th tuple's fields.
pub proof fn lemma_build_round_trip<Token>(descs: Seq<(Token, Span, Option<usize>, u8)>)
    ensures
        after_pushes(Seq::<Node<Token>>::empty(), nodes_of(descs)).len() == descs.len(),
        forall|i: int|
            0 <= i < descs.len() ==> #[trigger] after_pushes(
                Seq::<Node<Token>>::empty(),
                nodes_of(descs),
            )[i] == node_of(descs[i].0, descs[i].1, descs[i].2, descs[i].3),
{
    lemma_pushes_append(Seq::<Node<Token>>::empty(), nodes_of(descs));
    assert(after_pushes(Seq::<Node<Token>>::empty(), nodes_of(descs)) =~= nodes_of(descs));
}

} // verus!
