use vstd::prelude::*;

use core::marker::PhantomData;

use crate::expr::Expr;
use crate::expr::and::ExprAnd;
use crate::expr::node::ExprNode;
use crate::expr::not::ExprNot;
use crate::expr::or::ExprOr;
use crate::expr::shape::NodeView;
use crate::expr::value::ExprValue;
use crate::opset::traits::Opset;
use crate::value::membership::Membership;

verus! {

/// A display label for an atom: anything that renders as a fixed piece
/// of text. A zero-sized label adds nothing to the footprint of the
/// atom that carries it.
pub trait Tag: Sized {
    /// The text of the label.
    spec fn spec_text(&self) -> Seq<char>;

    /// Produces the text of the label.
    fn text(&self) -> (r: String)
        ensures
            r@ == self.spec_text();
}

impl Tag for &'static str {
    open spec fn spec_text(&self) -> Seq<char> {
        self@
    }

    fn text(&self) -> (r: String) {
        String::from_str(self)
    }
}

impl Tag for String {
    open spec fn spec_text(&self) -> Seq<char> {
        self@
    }

    fn text(&self) -> (r: String) {
        self.clone()
    }
}

/// Fuzzy value expression with a custom label: it evaluates exactly as
/// the unlabeled atom would, and renders as the label instead of as
/// the number.
#[derive(Copy)]
pub struct ExprTagged<S, T> {
    /// The degree of truth this atom holds.
    pub membership: Membership<S>,
    /// The label shown in renderings.
    pub tag: T,
    /// The operation set this expression is bound to.
    pub phantom: PhantomData<S>,
}

impl<S: Opset, T: Tag> ExprTagged<S, T> {
    /// Attaches a label to an unlabeled atom.
    pub fn from_unnamed(val: ExprValue<S>, tag: T) -> (r: Self)
        ensures
            r.spec_node() == (NodeView::Tagged { m: val.spec_membership(), text: tag.spec_text() }),
    {
        let membership = val.to_value();
        Self { membership, tag, phantom: PhantomData }
    }

    /// Creates a labeled atom from a valid membership degree.
    pub fn from_membership(membership: Membership<S>, tag: T) -> (r: Self)
        ensures
            r.spec_node() == (NodeView::Tagged { m: membership@, text: tag.spec_text() }),
    {
        Self { membership, tag, phantom: PhantomData }
    }
}

impl<S, T: Copy> Clone for ExprTagged<S, T> {
    /// The clone of a labeled atom is itself.
    fn clone(&self) -> (r: Self)
        ensures
            r == *self,
    {
        ExprTagged { membership: self.membership.clone(), tag: self.tag, phantom: PhantomData }
    }
}

impl<S: Opset, T: Tag> Expr<S> for ExprTagged<S, T> {
    open spec fn spec_node(&self) -> NodeView {
        NodeView::Tagged { m: self.membership@, text: self.tag.spec_text() }
    }

    fn to_value(&self) -> (r: Membership<S>) {
        self.membership
    }

    fn to_string(&self) -> (r: String) {
        self.tag.text()
    }

    fn to_tree(&self) -> (t: ExprNode<S>) {
        ExprNode::Tagged(self.membership, self.tag.text())
    }
}

impl<S: Opset, T: Tag> core::ops::Not for ExprTagged<S, T> {
    type Output = ExprNot<S, ExprTagged<S, T>>;

    /// `!a`: the fuzzy negation of this labeled atom.
    fn not(self) -> (r: ExprNot<S, ExprTagged<S, T>>) {
        Expr::not(self)
    }
}

impl<S: Opset, T: Tag> vstd::std_specs::ops::NotSpecImpl for ExprTagged<S, T> {
    open spec fn obeys_not_spec() -> bool {
        true
    }

    open spec fn not_req(self) -> bool {
        true
    }

    open spec fn not_spec(self) -> ExprNot<S, ExprTagged<S, T>> {
        ExprNot { val: self, phantom: PhantomData }
    }
}

impl<S: Opset, T: Tag, Q: Expr<S>> core::ops::BitAnd<Q> for ExprTagged<S, T> {
    type Output = ExprAnd<S, ExprTagged<S, T>, Q>;

    /// `a & b`: the fuzzy conjunction of this labeled atom with another
    /// expression.
    fn bitand(self, rhs: Q) -> (r: ExprAnd<S, ExprTagged<S, T>, Q>) {
        Expr::and(self, rhs)
    }
}

impl<S: Opset, T: Tag, Q: Expr<S>> vstd::std_specs::ops::BitAndSpecImpl<Q> for ExprTagged<S, T> {
    open spec fn obeys_bitand_spec() -> bool {
        true
    }

    open spec fn bitand_req(self, rhs: Q) -> bool {
        true
    }

    open spec fn bitand_spec(self, rhs: Q) -> ExprAnd<S, ExprTagged<S, T>, Q> {
        ExprAnd { lhs: self, rhs, phantom: PhantomData }
    }
}

impl<S: Opset, T: Tag, Q: Expr<S>> core::ops::BitOr<Q> for ExprTagged<S, T> {
    type Output = ExprOr<S, ExprTagged<S, T>, Q>;

    /// `a | b`: the fuzzy alternative of this labeled atom with another
    /// expression.
    fn bitor(self, rhs: Q) -> (r: ExprOr<S, ExprTagged<S, T>, Q>) {
        Expr::or(self, rhs)
    }
}

impl<S: Opset, T: Tag, Q: Expr<S>> vstd::std_specs::ops::BitOrSpecImpl<Q> for ExprTagged<S, T> {
    open spec fn obeys_bitor_spec() -> bool {
        true
    }

    open spec fn bitor_req(self, rhs: Q) -> bool {
        true
    }

    open spec fn bitor_spec(self, rhs: Q) -> ExprOr<S, ExprTagged<S, T>, Q> {
        ExprOr { lhs: self, rhs, phantom: PhantomData }
    }
}

} // verus!
