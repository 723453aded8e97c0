use vstd::prelude::*;

use crate::expr::shape::{spec_render, NodeView};
use crate::expr::Expr;
use crate::opset::traits::Opset;
use crate::value::membership::Membership;

verus! {

/// Fuzzy expression whose shape is chosen at runtime.
///
/// The statically typed expression types encode the shape of the tree
/// in the type itself; a compiled infix sequence has no fixed shape, so
/// the compiler builds this owned tree instead. It evaluates and
/// renders exactly as the statically typed tree it was built from, and
/// every expression can be turned into this form with
/// [`Expr::to_tree`].
#[derive(Debug)]
pub enum ExprNode<S> {
    /// An atomic degree of truth.
    Value(Membership<S>),
    /// An atomic degree of truth carrying a display label.
    Tagged(Membership<S>, String),
    /// Fuzzy negation of a subexpression.
    Not(Box<ExprNode<S>>),
    /// Fuzzy conjunction of two subexpressions.
    And(Box<ExprNode<S>>, Box<ExprNode<S>>),
    /// Fuzzy alternative of two subexpressions.
    Or(Box<ExprNode<S>>, Box<ExprNode<S>>),
}

/// The abstract tree of a runtime-shaped expression: the direct image
/// of its variants.
pub open spec fn tree_view<S>(t: ExprNode<S>) -> NodeView
    decreases t,
{
    match t {
        ExprNode::Value(m) => NodeView::Value { m: m@ },
        ExprNode::Tagged(m, text) => NodeView::Tagged { m: m@, text: text@ },
        ExprNode::Not(sub) => NodeView::Not { sub: Box::new(tree_view(*sub)) },
        ExprNode::And(lhs, rhs) => NodeView::And {
            lhs: Box::new(tree_view(*lhs)),
            rhs: Box::new(tree_view(*rhs)),
        },
        ExprNode::Or(lhs, rhs) => NodeView::Or {
            lhs: Box::new(tree_view(*lhs)),
            rhs: Box::new(tree_view(*rhs)),
        },
    }
}

impl<S: Opset> Expr<S> for ExprNode<S> {
    open spec fn spec_node(&self) -> NodeView {
        tree_view(*self)
    }

    fn to_value(&self) -> (r: Membership<S>)
        decreases *self,
    {
        match self {
            ExprNode::Value(m) => *m,
            ExprNode::Tagged(m, _) => *m,
            ExprNode::Not(sub) => S::not(sub.to_value()),
            ExprNode::And(lhs, rhs) => {
                let l = lhs.to_value();
                let r = rhs.to_value();
                S::and(l, r)
            },
            ExprNode::Or(lhs, rhs) => {
                let l = lhs.to_value();
                let r = rhs.to_value();
                S::or(l, r)
            },
        }
    }

    fn to_string(&self) -> (r: String)
        decreases *self,
    {
        proof {
            reveal_strlit("(");
            reveal_strlit(")");
            reveal_strlit("!");
            reveal_strlit(" & ");
            reveal_strlit(" | ");
        }
        match self {
            ExprNode::Value(m) => m.to_string(),
            ExprNode::Tagged(_, text) => text.clone(),
            ExprNode::Not(sub) => {
                let mut r = String::from_str("!");
                r.append(sub.to_string().as_str());
                proof {
                    assert(r@ =~= spec_render(self.spec_node()));
                }
                r
            },
            ExprNode::And(lhs, rhs) => {
                let mut r = String::from_str("(");
                r.append(lhs.to_string().as_str());
                r.append(" & ");
                r.append(rhs.to_string().as_str());
                r.append(")");
                proof {
                    assert(r@ =~= spec_render(self.spec_node()));
                }
                r
            },
            ExprNode::Or(lhs, rhs) => {
                let mut r = String::from_str("(");
                r.append(lhs.to_string().as_str());
                r.append(" | ");
                r.append(rhs.to_string().as_str());
                r.append(")");
                proof {
                    assert(r@ =~= spec_render(self.spec_node()));
                }
                r
            },
        }
    }

    fn to_tree(&self) -> (t: ExprNode<S>)
        decreases *self,
    {
        match self {
            ExprNode::Value(m) => ExprNode::Value(*m),
            ExprNode::Tagged(m, text) => ExprNode::Tagged(*m, text.clone()),
            ExprNode::Not(sub) => ExprNode::Not(Box::new(sub.to_tree())),
            ExprNode::And(lhs, rhs) => ExprNode::And(
                Box::new(lhs.to_tree()),
                Box::new(rhs.to_tree()),
            ),
            ExprNode::Or(lhs, rhs) => ExprNode::Or(
                Box::new(lhs.to_tree()),
                Box::new(rhs.to_tree()),
            ),
        }
    }
}

} // verus!
