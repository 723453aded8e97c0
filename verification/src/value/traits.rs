use vstd::prelude::*;

use crate::expr::shape::NodeView;
use crate::expr::Expr;
use crate::expr::value::ExprValue;
use crate::opset::traits::Opset;
use crate::value::membership::Membership;

verus! {

/// Any fuzzy value of a certain operation set: a type that can state
/// its own degree of membership. Implementing it fuzzifies ordinary
/// data, which can then be combined with the operations of `S` or
/// turned into an expression atom.
pub trait Value<S: Opset>: Sized {
    /// The degree of membership, at the spec level.
    spec fn spec_membership(&self) -> int;

    /// Get fuzzy membership value.
    fn membership(&self) -> (r: Membership<S>)
        ensures
            r@ == self.spec_membership();

    /// Get fuzzy membership expression.
    fn to_expr(&self) -> (r: ExprValue<S>)
        ensures
            r.spec_node() == (NodeView::Value { m: self.spec_membership() }),
    {
        ExprValue::from_membership(self.membership())
    }
}

impl<S: Opset> Value<S> for Membership<S> {
    open spec fn spec_membership(&self) -> int {
        self@
    }

    fn membership(&self) -> (r: Membership<S>) {
        *self
    }
}

} // verus!
