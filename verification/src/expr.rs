//! Fuzzy expressions that are built once and evaluated or rendered on
//! demand.
//!
//! Expressions are statically typed: the shape of the tree is part of
//! the type, nodes own their children outright, and no heap allocation
//! is needed for composition. Every expression type implements
//! [`Expr`], whose contract ties the executable evaluation and
//! rendering to one abstract tree
//! ([`NodeView`](shape::NodeView)).

pub mod and;
pub mod compile;
pub mod either;
pub mod node;
pub mod not;
pub mod or;
pub mod shape;
pub mod tagged;
pub mod tags;
pub mod value;

use vstd::prelude::*;

use core::marker::PhantomData;

use crate::expr::and::ExprAnd;
use crate::expr::either::ExprEither;
use crate::expr::node::{tree_view, ExprNode};
use crate::expr::not::ExprNot;
use crate::expr::or::ExprOr;
use crate::expr::shape::{spec_eval, spec_render, NodeView};
use crate::opset::traits::Opset;
use crate::value::membership::Membership;

verus! {

/// Evaluable fuzzy expression under the operation set `S`.
///
/// The trait carries the abstract tree of the expression in
/// [`Expr::spec_node`]; evaluation returns exactly the value of that
/// tree under `S`, and the combinators state exactly which tree they
/// build. Combining expressions of different operation sets is a
/// type error.
pub trait Expr<S: Opset>: Sized {
    /// The abstract tree this expression stands for.
    spec fn spec_node(&self) -> NodeView;

    /// Expression's value: the tree evaluated under `S`. Both operands
    /// of a binary node are always evaluated; nothing is cached, so
    /// evaluating twice recomputes twice.
    fn to_value(&self) -> (r: Membership<S>)
        ensures
            r@ == spec_eval::<S>(self.spec_node());

    /// Expression's canonical fully parenthesized rendering, as
    /// [`spec_render`] states it. Rendering is independent of the
    /// operation set and is built on demand; no text is stored in the
    /// tree.
    fn to_string(&self) -> (r: String)
        ensures
            r@ == spec_render(self.spec_node());

    /// The same expression as a runtime-shaped tree: the form the
    /// precedence compiler works with.
    fn to_tree(&self) -> (t: ExprNode<S>)
        ensures
            tree_view(t) == self.spec_node();

    /// "Not" expression.
    fn not(self) -> (r: ExprNot<S, Self>)
        ensures
            r.val == self,
    {
        ExprNot { val: self, phantom: PhantomData }
    }

    /// "And" expression.
    fn and<R>(self, rhs: R) -> (r: ExprAnd<S, Self, R>)
        ensures
            r.lhs == self,
            r.rhs == rhs,
    {
        ExprAnd { lhs: self, rhs, phantom: PhantomData }
    }

    /// "Or" expression.
    fn or<R>(self, rhs: R) -> (r: ExprOr<S, Self, R>)
        ensures
            r.lhs == self,
            r.rhs == rhs,
    {
        ExprOr { lhs: self, rhs, phantom: PhantomData }
    }

    /// Wraps this expression as the left arm of an alternative, so that
    /// two code paths that build trees of different shapes can hand
    /// back one type.
    fn as_left<R>(self) -> (r: ExprEither<S, Self, R>)
        ensures
            (r matches ExprEither::Left(l, _) && l == self),
    {
        ExprEither::Left(self, PhantomData)
    }

    /// Wraps this expression as the right arm of an alternative.
    fn as_right<L>(self) -> (r: ExprEither<S, L, Self>)
        ensures
            (r matches ExprEither::Right(v, _) && v == self),
    {
        ExprEither::Right(self, PhantomData)
    }
}

} // verus!
