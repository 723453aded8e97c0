use vstd::prelude::*;

use crate::value::membership::{in_unit, Membership, Raw, UNIT};

verus! {

/// A fuzzy operation set: one mathematical meaning for negation,
/// disjunction and conjunction over the unit interval.
///
/// The three `spec` functions state the meaning on mathematical
/// integers (in thousandths of the unit interval); the three executable
/// functions compute exactly those values. Every implementation must
/// also prove, through [`Opset::ops_in_unit`], that its operations keep
/// the unit interval, so a degree of truth built from valid degrees is
/// always valid itself.
pub trait Opset: Sized + Clone + Copy {
    /// Meaning of fuzzy negation.
    spec fn spec_not(x: int) -> int;

    /// Meaning of fuzzy alternative.
    spec fn spec_or(a: int, b: int) -> int;

    /// Meaning of fuzzy conjunction.
    spec fn spec_and(a: int, b: int) -> int;

    /// The operations never leave the unit interval when applied to
    /// values on it.
    proof fn ops_in_unit(a: int, b: int)
        requires
            in_unit(a),
            in_unit(b),
        ensures
            in_unit(Self::spec_not(a)),
            in_unit(Self::spec_or(a, b)),
            in_unit(Self::spec_and(a, b));

    /// Fuzzy negation (`not` operator).
    fn not(val: Membership<Self>) -> (r: Membership<Self>)
        ensures
            r@ == Self::spec_not(val@);

    /// Fuzzy alternative (`or` operator).
    fn or(lhs: Membership<Self>, rhs: Membership<Self>) -> (r: Membership<Self>)
        ensures
            r@ == Self::spec_or(lhs@, rhs@);

    /// Fuzzy conjunction (`and` operator).
    fn and(lhs: Membership<Self>, rhs: Membership<Self>) -> (r: Membership<Self>)
        ensures
            r@ == Self::spec_and(lhs@, rhs@);

    /// Creates a member degree of this operation set.
    fn member(raw: Raw) -> (r: Membership<Self>)
        requires
            in_unit(raw as int),
        ensures
            r@ == raw,
    {
        Membership::new(raw)
    }
}

/// A fuzzy operation set all operations of which are differentiable.
pub trait OpsetDifferentiable: Opset {

}

} // verus!
