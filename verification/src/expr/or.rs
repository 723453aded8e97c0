use vstd::prelude::*;

use core::marker::PhantomData;

use crate::expr::Expr;
use crate::expr::and::ExprAnd;
use crate::expr::node::ExprNode;
use crate::expr::not::ExprNot;
use crate::expr::shape::{spec_render, NodeView};
use crate::opset::traits::Opset;
use crate::value::membership::Membership;

verus! {

/// Fuzzy "or" expression.
#[derive(Copy)]
pub struct ExprOr<S, L, R> {
    /// The left operand.
    pub lhs: L,
    /// The right operand.
    pub rhs: R,
    /// The operation set this expression is bound to.
    pub phantom: PhantomData<S>,
}

impl<S: Opset, L: Expr<S>, R: Expr<S>> ExprOr<S, L, R> {
    /// Combines two expressions in a fuzzy alternative.
    pub fn new(lhs: L, rhs: R) -> (r: Self)
        ensures
            r.spec_node() == (NodeView::Or {
                lhs: Box::new(lhs.spec_node()),
                rhs: Box::new(rhs.spec_node()),
            }),
            r.lhs == lhs,
            r.rhs == rhs,
    {
        Self { lhs, rhs, phantom: PhantomData }
    }
}

impl<S, L: Copy, R: Copy> Clone for ExprOr<S, L, R> {
    /// The clone of an alternative is itself.
    fn clone(&self) -> (r: Self)
        ensures
            r == *self,
    {
        ExprOr { lhs: self.lhs, rhs: self.rhs, phantom: PhantomData }
    }
}

impl<S: Opset, L: Expr<S>, R: Expr<S>> Expr<S> for ExprOr<S, L, R> {
    open spec fn spec_node(&self) -> NodeView {
        NodeView::Or { lhs: Box::new(self.lhs.spec_node()), rhs: Box::new(self.rhs.spec_node()) }
    }

    fn to_value(&self) -> (r: Membership<S>) {
        let lhs = self.lhs.to_value();
        let rhs = self.rhs.to_value();
        S::or(lhs, rhs)
    }

    fn to_string(&self) -> (r: String) {
        proof {
            reveal_strlit("(");
            reveal_strlit(" | ");
            reveal_strlit(")");
        }
        let mut r = String::from_str("(");
        r.append(self.lhs.to_string().as_str());
        r.append(" | ");
        r.append(self.rhs.to_string().as_str());
        r.append(")");
        proof {
            assert(r@ =~= spec_render(self.spec_node()));
        }
        r
    }

    fn to_tree(&self) -> (t: ExprNode<S>) {
        ExprNode::Or(Box::new(self.lhs.to_tree()), Box::new(self.rhs.to_tree()))
    }
}

impl<S: Opset, L: Expr<S>, R: Expr<S>> core::ops::Not for ExprOr<S, L, R> {
    type Output = ExprNot<S, ExprOr<S, L, R>>;

    /// `!a`: the fuzzy negation of this alternative.
    fn not(self) -> (r: ExprNot<S, ExprOr<S, L, R>>) {
        Expr::not(self)
    }
}

impl<S: Opset, L: Expr<S>, R: Expr<S>> vstd::std_specs::ops::NotSpecImpl for ExprOr<S, L, R> {
    open spec fn obeys_not_spec() -> bool {
        true
    }

    open spec fn not_req(self) -> bool {
        true
    }

    open spec fn not_spec(self) -> ExprNot<S, ExprOr<S, L, R>> {
        ExprNot { val: self, phantom: PhantomData }
    }
}

impl<S: Opset, L: Expr<S>, R: Expr<S>, Q: Expr<S>> core::ops::BitAnd<Q> for ExprOr<S, L, R> {
    type Output = ExprAnd<S, ExprOr<S, L, R>, Q>;

    /// `a & b`: the fuzzy conjunction of this alternative with another
    /// expression.
    fn bitand(self, rhs: Q) -> (r: ExprAnd<S, ExprOr<S, L, R>, Q>) {
        Expr::and(self, rhs)
    }
}

impl<S: Opset, L: Expr<S>, R: Expr<S>, Q: Expr<S>> vstd::std_specs::ops::BitAndSpecImpl<Q> for ExprOr<S, L, R> {
    open spec fn obeys_bitand_spec() -> bool {
        true
    }

    open spec fn bitand_req(self, rhs: Q) -> bool {
        true
    }

    open spec fn bitand_spec(self, rhs: Q) -> ExprAnd<S, ExprOr<S, L, R>, Q> {
        ExprAnd { lhs: self, rhs, phantom: PhantomData }
    }
}

impl<S: Opset, L: Expr<S>, R: Expr<S>, Q: Expr<S>> core::ops::BitOr<Q> for ExprOr<S, L, R> {
    type Output = ExprOr<S, ExprOr<S, L, R>, Q>;

    /// `a | b`: the fuzzy alternative of this alternative with another
    /// expression.
    fn bitor(self, rhs: Q) -> (r: ExprOr<S, ExprOr<S, L, R>, Q>) {
        Expr::or(self, rhs)
    }
}

impl<S: Opset, L: Expr<S>, R: Expr<S>, Q: Expr<S>> vstd::std_specs::ops::BitOrSpecImpl<Q> for ExprOr<S, L, R> {
    open spec fn obeys_bitor_spec() -> bool {
        true
    }

    open spec fn bitor_req(self, rhs: Q) -> bool {
        true
    }

    open spec fn bitor_spec(self, rhs: Q) -> ExprOr<S, ExprOr<S, L, R>, Q> {
        ExprOr { lhs: self, rhs, phantom: PhantomData }
    }
}

} // verus!
