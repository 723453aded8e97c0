use vstd::prelude::*;

use core::marker::PhantomData;

use crate::expr::Expr;
use crate::expr::and::ExprAnd;
use crate::expr::node::ExprNode;
use crate::expr::not::ExprNot;
use crate::expr::or::ExprOr;
use crate::expr::shape::{spec_eval, spec_render, NodeView};
use crate::opset::traits::Opset;
use crate::value::membership::Membership;

verus! {

/// Fuzzy expression for a runtime choice of path.
///
/// Two code paths that build trees of different shapes — and so of
/// different types — can each wrap their tree in one arm of an
/// `ExprEither` and hand back one type. The wrapper is transparent:
/// its abstract tree is exactly the tree of whichever arm is present,
/// so evaluation and rendering delegate without change.
#[derive(Copy)]
pub enum ExprEither<S, L, R> {
    /// The first of the two tree shapes.
    Left(L, PhantomData<S>),
    /// The second of the two tree shapes.
    Right(R, PhantomData<S>),
}

impl<S: Opset, L: Expr<S>, R: Expr<S>> ExprEither<S, L, R> {
    /// Wraps the first tree shape.
    pub fn left(val: L) -> (r: Self)
        ensures
            r.spec_node() == val.spec_node(),
            r matches ExprEither::Left(l, _) && l == val,
    {
        ExprEither::Left(val, PhantomData)
    }

    /// Wraps the second tree shape.
    pub fn right(val: R) -> (r: Self)
        ensures
            r.spec_node() == val.spec_node(),
            r matches ExprEither::Right(v, _) && v == val,
    {
        ExprEither::Right(val, PhantomData)
    }
}

impl<S, L: Copy, R: Copy> Clone for ExprEither<S, L, R> {
    /// The clone of a choice is itself.
    fn clone(&self) -> (r: Self)
        ensures
            r == *self,
    {
        match self {
            ExprEither::Left(val, _) => ExprEither::Left(*val, PhantomData),
            ExprEither::Right(val, _) => ExprEither::Right(*val, PhantomData),
        }
    }
}

impl<S: Opset, L: Expr<S>, R: Expr<S>> Expr<S> for ExprEither<S, L, R> {
    /// The tree of whichever arm is present.
    open spec fn spec_node(&self) -> NodeView {
        match self {
            ExprEither::Left(val, _) => val.spec_node(),
            ExprEither::Right(val, _) => val.spec_node(),
        }
    }

    fn to_value(&self) -> (r: Membership<S>) {
        match self {
            ExprEither::Left(val, _) => val.to_value(),
            ExprEither::Right(val, _) => val.to_value(),
        }
    }

    fn to_string(&self) -> (r: String) {
        match self {
            ExprEither::Left(val, _) => val.to_string(),
            ExprEither::Right(val, _) => val.to_string(),
        }
    }

    fn to_tree(&self) -> (t: ExprNode<S>) {
        match self {
            ExprEither::Left(val, _) => val.to_tree(),
            ExprEither::Right(val, _) => val.to_tree(),
        }
    }
}

impl<S: Opset, L: Expr<S>, R: Expr<S>> core::ops::Not for ExprEither<S, L, R> {
    type Output = ExprNot<S, ExprEither<S, L, R>>;

    /// `!a`: the fuzzy negation of this choice.
    fn not(self) -> (r: ExprNot<S, ExprEither<S, L, R>>) {
        Expr::not(self)
    }
}

impl<S: Opset, L: Expr<S>, R: Expr<S>> vstd::std_specs::ops::NotSpecImpl for ExprEither<S, L, R> {
    open spec fn obeys_not_spec() -> bool {
        true
    }

    open spec fn not_req(self) -> bool {
        true
    }

    open spec fn not_spec(self) -> ExprNot<S, ExprEither<S, L, R>> {
        ExprNot { val: self, phantom: PhantomData }
    }
}

impl<S: Opset, L: Expr<S>, R: Expr<S>, Q: Expr<S>> core::ops::BitAnd<Q> for ExprEither<S, L, R> {
    type Output = ExprAnd<S, ExprEither<S, L, R>, Q>;

    /// `a & b`: the fuzzy conjunction of this choice with another
    /// expression.
    fn bitand(self, rhs: Q) -> (r: ExprAnd<S, ExprEither<S, L, R>, Q>) {
        Expr::and(self, rhs)
    }
}

impl<S: Opset, L: Expr<S>, R: Expr<S>, Q: Expr<S>> vstd::std_specs::ops::BitAndSpecImpl<Q> for ExprEither<S, L, R> {
    open spec fn obeys_bitand_spec() -> bool {
        true
    }

    open spec fn bitand_req(self, rhs: Q) -> bool {
        true
    }

    open spec fn bitand_spec(self, rhs: Q) -> ExprAnd<S, ExprEither<S, L, R>, Q> {
        ExprAnd { lhs: self, rhs, phantom: PhantomData }
    }
}

impl<S: Opset, L: Expr<S>, R: Expr<S>, Q: Expr<S>> core::ops::BitOr<Q> for ExprEither<S, L, R> {
    type Output = ExprOr<S, ExprEither<S, L, R>, Q>;

    /// `a | b`: the fuzzy alternative of this choice with another
    /// expression.
    fn bitor(self, rhs: Q) -> (r: ExprOr<S, ExprEither<S, L, R>, Q>) {
        Expr::or(self, rhs)
    }
}

impl<S: Opset, L: Expr<S>, R: Expr<S>, Q: Expr<S>> vstd::std_specs::ops::BitOrSpecImpl<Q> for ExprEither<S, L, R> {
    open spec fn obeys_bitor_spec() -> bool {
        true
    }

    open spec fn bitor_req(self, rhs: Q) -> bool {
        true
    }

    open spec fn bitor_spec(self, rhs: Q) -> ExprOr<S, ExprEither<S, L, R>, Q> {
        ExprOr { lhs: self, rhs, phantom: PhantomData }
    }
}

/// Alternative transparency: wrapping a tree in either arm of an
/// [`ExprEither`] changes nothing that can be observed of it — under
/// any operation set it evaluates to the value of the wrapped tree,
/// and it renders as the wrapped tree renders.
pub proof fn lemma_alternative_transparency<S: Opset, L: Expr<S>, R: Expr<S>>(
    e: ExprEither<S, L, R>,
)
    ensures
        (e matches ExprEither::Left(l, _) ==> spec_eval::<S>(e.spec_node()) == spec_eval::<S>(
            l.spec_node(),
        ) && spec_render(e.spec_node()) == spec_render(l.spec_node())),
        (e matches ExprEither::Right(v, _) ==> spec_eval::<S>(e.spec_node()) == spec_eval::<S>(
            v.spec_node(),
        ) && spec_render(e.spec_node()) == spec_render(v.spec_node())),
{
}

} // verus!
