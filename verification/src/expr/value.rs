use vstd::prelude::*;

use core::marker::PhantomData;

use crate::expr::Expr;
use crate::expr::and::ExprAnd;
use crate::expr::node::ExprNode;
use crate::expr::not::ExprNot;
use crate::expr::or::ExprOr;
use crate::expr::shape::NodeView;
use crate::expr::tagged::{ExprTagged, Tag};
use crate::opset::traits::Opset;
use crate::value::membership::{in_unit, Membership, Raw};

verus! {

/// Fuzzy value expression: the atomic leaf of an expression tree,
/// rendering as its decimal text.
#[derive(Copy)]
pub struct ExprValue<S> {
    /// The degree of truth this atom holds.
    pub membership: Membership<S>,
}

impl<S: Opset> ExprValue<S> {
    /// Creates an atom from a raw value, which must lie on the unit
    /// interval.
    pub fn new(raw: Raw) -> (r: Self)
        requires
            in_unit(raw as int),
        ensures
            r.spec_node() == (NodeView::Value { m: raw as int }),
            r.spec_membership() == raw,
    {
        Self { membership: Membership::new(raw) }
    }

    /// Creates an atom from a raw value, or `None` when the value lies
    /// outside the unit interval.
    pub fn try_new(raw: Raw) -> (r: Option<Self>)
        ensures
            in_unit(raw as int) ==> (r matches Some(e) && e.spec_node() == (NodeView::Value {
                m: raw as int,
            }) && e.spec_membership() == raw),
            !in_unit(raw as int) ==> r is None,
    {
        match Membership::try_new(raw) {
            Some(membership) => Some(Self { membership }),
            None => None,
        }
    }

    /// Creates an atom from an already valid membership degree.
    pub fn from_membership(membership: Membership<S>) -> (r: Self)
        ensures
            r.spec_node() == (NodeView::Value { m: membership@ }),
            r.spec_membership() == membership@,
    {
        Self { membership }
    }

    /// Changes this atom into a labeled atom: the value is kept, and
    /// the label replaces the number in renderings.
    pub fn with_tag<T: Tag>(self, tag: T) -> (r: ExprTagged<S, T>)
        ensures
            r.spec_node() == (NodeView::Tagged {
                m: self.spec_membership(),
                text: tag.spec_text(),
            }),
    {
        ExprTagged::from_unnamed(self, tag)
    }

    /// The stored degree, at the spec level.
    pub open spec fn spec_membership(self) -> int {
        self.membership@
    }
}

impl<S> Clone for ExprValue<S> {
    /// The clone of an atom is itself.
    fn clone(&self) -> (r: Self)
        ensures
            r == *self,
    {
        ExprValue { membership: self.membership.clone() }
    }
}

impl<S: Opset> Expr<S> for ExprValue<S> {
    open spec fn spec_node(&self) -> NodeView {
        NodeView::Value { m: self.membership@ }
    }

    fn to_value(&self) -> (r: Membership<S>) {
        self.membership
    }

    fn to_string(&self) -> (r: String) {
        self.membership.to_string()
    }

    fn to_tree(&self) -> (t: ExprNode<S>) {
        ExprNode::Value(self.membership)
    }
}

impl<S: Opset> core::ops::Not for ExprValue<S> {
    type Output = ExprNot<S, ExprValue<S>>;

    /// `!a`: the fuzzy negation of this atom.
    fn not(self) -> (r: ExprNot<S, ExprValue<S>>) {
        Expr::not(self)
    }
}

impl<S: Opset> vstd::std_specs::ops::NotSpecImpl for ExprValue<S> {
    open spec fn obeys_not_spec() -> bool {
        true
    }

    open spec fn not_req(self) -> bool {
        true
    }

    open spec fn not_spec(self) -> ExprNot<S, ExprValue<S>> {
        ExprNot { val: self, phantom: PhantomData }
    }
}

impl<S: Opset, Q: Expr<S>> core::ops::BitAnd<Q> for ExprValue<S> {
    type Output = ExprAnd<S, ExprValue<S>, Q>;

    /// `a & b`: the fuzzy conjunction of this atom with another
    /// expression.
    fn bitand(self, rhs: Q) -> (r: ExprAnd<S, ExprValue<S>, Q>) {
        Expr::and(self, rhs)
    }
}

impl<S: Opset, Q: Expr<S>> vstd::std_specs::ops::BitAndSpecImpl<Q> for ExprValue<S> {
    open spec fn obeys_bitand_spec() -> bool {
        true
    }

    open spec fn bitand_req(self, rhs: Q) -> bool {
        true
    }

    open spec fn bitand_spec(self, rhs: Q) -> ExprAnd<S, ExprValue<S>, Q> {
        ExprAnd { lhs: self, rhs, phantom: PhantomData }
    }
}

impl<S: Opset, Q: Expr<S>> core::ops::BitOr<Q> for ExprValue<S> {
    type Output = ExprOr<S, ExprValue<S>, Q>;

    /// `a | b`: the fuzzy alternative of this atom with another
    /// expression.
    fn bitor(self, rhs: Q) -> (r: ExprOr<S, ExprValue<S>, Q>) {
        Expr::or(self, rhs)
    }
}

impl<S: Opset, Q: Expr<S>> vstd::std_specs::ops::BitOrSpecImpl<Q> for ExprValue<S> {
    open spec fn obeys_bitor_spec() -> bool {
        true
    }

    open spec fn bitor_req(self, rhs: Q) -> bool {
        true
    }

    open spec fn bitor_spec(self, rhs: Q) -> ExprOr<S, ExprValue<S>, Q> {
        ExprOr { lhs: self, rhs, phantom: PhantomData }
    }
}

} // verus!
