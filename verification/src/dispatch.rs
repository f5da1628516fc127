//! The dispatch protocol: what a family, a node, and a visitor owe each other.
//!
//! A traversal is one synchronous call. The family looks at the variant it
//! holds and hands the visitor, with the payload stored beside that variant,
//! to the variant's [`Node::accept`], which calls the visitor's
//! [`Visit::visit`] for exactly that node type.
//!
//! The traits form no cycle: [`Visitor`] and [`Member`] stand alone,
//! [`NodeFamily`] names [`Visitor`], [`Visit`] names the three of them, and
//! [`Node`] names [`Visit`]. A node's family is therefore read from
//! [`Member`], which does not depend on the visitor.

use vstd::prelude::*;

verus! {

/// A visitor over the family `F`: it yields one `Output` per traversal.
///
/// A visitor type binds its output once for each family; several visitor
/// types may bind different outputs for one family.
pub trait Visitor<F>: Sized {
    type Output;
}

/// A closed union of node types that share the payload type `Data`.
///
/// An implementation bounds `V` by [`Visit`] for every node type of the
/// family, as the generated one does: a visitor that lacks the visiting
/// logic for one of them cannot be handed to `accept`, and a traversal
/// never meets a variant that the visitor cannot handle.
pub trait NodeFamily<V>: Sized where V: Visitor<Self> {
    type Data;

    /// What one traversal of `self` may do to the visitor and yield: the
    /// relation that `accept` keeps. Left as it is, nothing is claimed.
    open spec fn accepts(&self, before: V, after: V, out: V::Output) -> bool {
        true
    }

    /// Routes `v` to the variant that `self` holds.
    fn accept(&self, v: &mut V) -> (out: V::Output)
        ensures
            self.accepts(*old(v), *final(v), out),
    ;
}

/// A node type belongs to exactly one family.
pub trait Member: Sized {
    type Family;
}

/// The payload that a node of type `N` carries when `V` visits it: the
/// payload type of the family of `N`.
pub type Data<V, N> = <<N as Member>::Family as NodeFamily<V>>::Data;

/// The visiting logic of a visitor for the node type `N`.
///
/// This is the one trait that is implemented by hand, once for each node
/// type of each family that the visitor is bound to.
pub trait Visit<N>: Visitor<N::Family> where N: Member, N::Family: NodeFamily<Self> {
    /// What one call of `visit` may do: the visitor before, the node and the
    /// payload it was given, the visitor after, and the output. An
    /// implementation that is verified states its behaviour here; left as it
    /// is, nothing is claimed.
    open spec fn visits(
        before: Self,
        node: N,
        data: Data<Self, N>,
        after: Self,
        out: Self::Output,
    ) -> bool {
        true
    }

    fn visit(&mut self, node: &N, data: &Data<Self, N>) -> (out: Self::Output)
        ensures
            Self::visits(*old(self), *node, *data, *final(self), out),
    ;
}

/// A node type that the visitor `V` can be routed to.
pub trait Node<V>: Member where V: Visit<Self>, Self::Family: NodeFamily<V> {
    /// Hands `self` and `data` to the visiting logic that `V` has for this
    /// node type: the outcome is an outcome of that `visit`, on this node and
    /// on the very payload that was passed in.
    fn accept(&self, v: &mut V, data: &Data<V, Self>) -> (out: V::Output)
        ensures
            V::visits(*old(v), *self, *data, *final(v), out),
    {
        v.visit(self, data)
    }
}

/// Enters `family` with `visitor`: the same as `family.accept(visitor)`,
/// written from the visitor's side.
pub fn traverse<V, F>(visitor: &mut V, family: &F) -> (out: V::Output) where
    V: Visitor<F>,
    F: NodeFamily<V>,

    ensures
        family.accepts(*old(visitor), *final(visitor), out),
{
    family.accept(visitor)
}

} // verus!
