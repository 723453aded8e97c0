use vstd::prelude::*;

use crate::opset::traits::Opset;
use crate::value::membership::{in_unit, spec_render_raw};

verus! {

/// The abstract form of a fuzzy expression: which atoms it holds and
/// how they are combined. Every concrete expression type maps to one
/// such tree, and both evaluation and rendering are stated over it.
pub enum NodeView {
    /// An atomic degree of truth.
    Value { m: int },
    /// An atomic degree of truth that renders as a label instead of as
    /// its number.
    Tagged { m: int, text: Seq<char> },
    /// Fuzzy negation of a subexpression.
    Not { sub: Box<NodeView> },
    /// Fuzzy conjunction of two subexpressions.
    And { lhs: Box<NodeView>, rhs: Box<NodeView> },
    /// Fuzzy alternative of two subexpressions.
    Or { lhs: Box<NodeView>, rhs: Box<NodeView> },
}

/// Whether every atom of the tree lies on the unit interval.
pub open spec fn spec_wf(n: NodeView) -> bool
    decreases n,
{
    match n {
        NodeView::Value { m } => in_unit(m),
        NodeView::Tagged { m, .. } => in_unit(m),
        NodeView::Not { sub } => spec_wf(*sub),
        NodeView::And { lhs, rhs } => spec_wf(*lhs) && spec_wf(*rhs),
        NodeView::Or { lhs, rhs } => spec_wf(*lhs) && spec_wf(*rhs),
    }
}

/// The value of the tree under the operation set `S`: atoms evaluate to
/// the degree they hold — a label changes nothing — and each operator
/// node applies the matching operation of `S` to the values of its
/// children.
pub open spec fn spec_eval<S: Opset>(n: NodeView) -> int
    decreases n,
{
    match n {
        NodeView::Value { m } => m,
        NodeView::Tagged { m, .. } => m,
        NodeView::Not { sub } => S::spec_not(spec_eval::<S>(*sub)),
        NodeView::And { lhs, rhs } => S::spec_and(spec_eval::<S>(*lhs), spec_eval::<S>(*rhs)),
        NodeView::Or { lhs, rhs } => S::spec_or(spec_eval::<S>(*lhs), spec_eval::<S>(*rhs)),
    }
}

/// The canonical fully parenthesized rendering of the tree: a plain
/// atom renders as its decimal text, a labeled atom as its label, `!`
/// is prefixed without a space, and every binary node is wrapped in
/// parentheses with one space around its operator. The rendering
/// depends only on the tree, never on an operation set.
pub open spec fn spec_render(n: NodeView) -> Seq<char>
    decreases n,
{
    match n {
        NodeView::Value { m } => spec_render_raw(m),
        NodeView::Tagged { text, .. } => text,
        NodeView::Not { sub } => seq!['!'] + spec_render(*sub),
        NodeView::And { lhs, rhs } => seq!['('] + spec_render(*lhs) + seq![' ', '&', ' ']
            + spec_render(*rhs) + seq![')'],
        NodeView::Or { lhs, rhs } => seq!['('] + spec_render(*lhs) + seq![' ', '|', ' ']
            + spec_render(*rhs) + seq![')'],
    }
}

/// Bound invariant: the value of any tree whose atoms lie on the unit
/// interval lies on the unit interval itself, because every operation
/// set is proved to keep that interval.
pub proof fn lemma_eval_in_unit<S: Opset>(n: NodeView)
    requires
        spec_wf(n),
    ensures
        in_unit(spec_eval::<S>(n)),
    decreases n,
{
    match n {
        NodeView::Value { m } => {
        },
        NodeView::Tagged { .. } => {
        },
        NodeView::Not { sub } => {
            lemma_eval_in_unit::<S>(*sub);
            S::ops_in_unit(spec_eval::<S>(*sub), 0);
        },
        NodeView::And { lhs, rhs } => {
            lemma_eval_in_unit::<S>(*lhs);
            lemma_eval_in_unit::<S>(*rhs);
            S::ops_in_unit(spec_eval::<S>(*lhs), spec_eval::<S>(*rhs));
        },
        NodeView::Or { lhs, rhs } => {
            lemma_eval_in_unit::<S>(*lhs);
            lemma_eval_in_unit::<S>(*rhs);
            S::ops_in_unit(spec_eval::<S>(*lhs), spec_eval::<S>(*rhs));
        },
    }
}

/// Labeling erasure: attaching a label to an atom never changes its
/// value, under any operation set; a label takes part in rendering
/// only.
pub proof fn lemma_label_erasure<S: Opset>(m: int, text: Seq<char>)
    ensures
        spec_eval::<S>((NodeView::Tagged { m, text })) == spec_eval::<S>((NodeView::Value { m })),
{
}

} // verus!
