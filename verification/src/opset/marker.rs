use vstd::prelude::*;

use core::marker::PhantomData;

use crate::opset::traits::Opset;
use crate::value::membership::Membership;
use crate::value::traits::Value;

verus! {

/// Fuzzy operation set marker: a value standing for the operation set
/// `S`, through which the operations can be applied to any fuzzy
/// values of `S` without naming the set at each call.
pub struct OpsetMarker<S> {
    phantom: PhantomData<S>,
}

impl<S: Opset> OpsetMarker<S> {
    /// Create new marker.
    pub fn new() -> Self {
        OpsetMarker { phantom: PhantomData }
    }

    /// Fuzzy negation (`not` operator).
    pub fn not<M: Value<S>>(&self, val: M) -> (r: Membership<S>)
        ensures
            r@ == S::spec_not(val.spec_membership()),
    {
        S::not(val.membership())
    }

    /// Fuzzy alternative (`or` operator).
    pub fn or<L: Value<S>, R: Value<S>>(&self, lhs: L, rhs: R) -> (r: Membership<S>)
        ensures
            r@ == S::spec_or(lhs.spec_membership(), rhs.spec_membership()),
    {
        S::or(lhs.membership(), rhs.membership())
    }

    /// Fuzzy conjunction (`and` operator).
    pub fn and<L: Value<S>, R: Value<S>>(&self, lhs: L, rhs: R) -> (r: Membership<S>)
        ensures
            r@ == S::spec_and(lhs.spec_membership(), rhs.spec_membership()),
    {
        S::and(lhs.membership(), rhs.membership())
    }
}

} // verus!
