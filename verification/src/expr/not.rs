use vstd::prelude::*;

use core::marker::PhantomData;

use crate::expr::Expr;
use crate::expr::and::ExprAnd;
use crate::expr::node::ExprNode;
use crate::expr::or::ExprOr;
use crate::expr::shape::{spec_render, NodeView};
use crate::opset::traits::Opset;
use crate::value::membership::Membership;

verus! {

/// Fuzzy "not" expression.
#[derive(Copy)]
pub struct ExprNot<S, V> {
    /// The negated subexpression.
    pub val: V,
    /// The operation set this expression is bound to.
    pub phantom: PhantomData<S>,
}

impl<S: Opset, V: Expr<S>> ExprNot<S, V> {
    /// Wraps an expression in a fuzzy negation.
    pub fn new(val: V) -> (r: Self)
        ensures
            r.spec_node() == (NodeView::Not { sub: Box::new(val.spec_node()) }),
            r.val == val,
    {
        Self { val, phantom: PhantomData }
    }
}

impl<S, V: Copy> Clone for ExprNot<S, V> {
    /// The clone of a negation is itself.
    fn clone(&self) -> (r: Self)
        ensures
            r == *self,
    {
        ExprNot { val: self.val, phantom: PhantomData }
    }
}

impl<S: Opset, V: Expr<S>> Expr<S> for ExprNot<S, V> {
    open spec fn spec_node(&self) -> NodeView {
        NodeView::Not { sub: Box::new(self.val.spec_node()) }
    }

    fn to_value(&self) -> (r: Membership<S>) {
        S::not(self.val.to_value())
    }

    fn to_string(&self) -> (r: String) {
        proof {
            reveal_strlit("!");
        }
        let mut r = String::from_str("!");
        r.append(self.val.to_string().as_str());
        proof {
            assert(r@ =~= spec_render(self.spec_node()));
        }
        r
    }

    fn to_tree(&self) -> (t: ExprNode<S>) {
        ExprNode::Not(Box::new(self.val.to_tree()))
    }
}

impl<S: Opset, V: Expr<S>> core::ops::Not for ExprNot<S, V> {
    type Output = ExprNot<S, ExprNot<S, V>>;

    /// `!a`: the fuzzy negation of this negation.
    fn not(self) -> (r: ExprNot<S, ExprNot<S, V>>) {
        Expr::not(self)
    }
}

impl<S: Opset, V: Expr<S>> vstd::std_specs::ops::NotSpecImpl for ExprNot<S, V> {
    open spec fn obeys_not_spec() -> bool {
        true
    }

    open spec fn not_req(self) -> bool {
        true
    }

    open spec fn not_spec(self) -> ExprNot<S, ExprNot<S, V>> {
        ExprNot { val: self, phantom: PhantomData }
    }
}

impl<S: Opset, V: Expr<S>, Q: Expr<S>> core::ops::BitAnd<Q> for ExprNot<S, V> {
    type Output = ExprAnd<S, ExprNot<S, V>, Q>;

    /// `a & b`: the fuzzy conjunction of this negation with another
    /// expression.
    fn bitand(self, rhs: Q) -> (r: ExprAnd<S, ExprNot<S, V>, Q>) {
        Expr::and(self, rhs)
    }
}

impl<S: Opset, V: Expr<S>, Q: Expr<S>> vstd::std_specs::ops::BitAndSpecImpl<Q> for ExprNot<S, V> {
    open spec fn obeys_bitand_spec() -> bool {
        true
    }

    open spec fn bitand_req(self, rhs: Q) -> bool {
        true
    }

    open spec fn bitand_spec(self, rhs: Q) -> ExprAnd<S, ExprNot<S, V>, Q> {
        ExprAnd { lhs: self, rhs, phantom: PhantomData }
    }
}

impl<S: Opset, V: Expr<S>, Q: Expr<S>> core::ops::BitOr<Q> for ExprNot<S, V> {
    type Output = ExprOr<S, ExprNot<S, V>, Q>;

    /// `a | b`: the fuzzy alternative of this negation with another
    /// expression.
    fn bitor(self, rhs: Q) -> (r: ExprOr<S, ExprNot<S, V>, Q>) {
        Expr::or(self, rhs)
    }
}

impl<S: Opset, V: Expr<S>, Q: Expr<S>> vstd::std_specs::ops::BitOrSpecImpl<Q> for ExprNot<S, V> {
    open spec fn obeys_bitor_spec() -> bool {
        true
    }

    open spec fn bitor_req(self, rhs: Q) -> bool {
        true
    }

    open spec fn bitor_spec(self, rhs: Q) -> ExprOr<S, ExprNot<S, V>, Q> {
        ExprOr { lhs: self, rhs, phantom: PhantomData }
    }
}

} // verus!
