use vstd::prelude::*;

use vstd::arithmetic::div_mod::{
    lemma_div_pos_is_pos, lemma_hoist_over_denominator, lemma_multiply_divide_le,
};

use crate::opset::traits::Opset;
use crate::value::membership::{in_unit, Membership, UNIT};

verus! {

// Shared arithmetic facts about products of values on the fixed-point
// unit interval. `UNIT` is written out as `1000` inside the nonlinear
// proofs so that the solver sees plain literals.

/// Bounds on the product of two unit-interval values, and the expansion
/// of the complementary product, used by every operation set whose
/// formulas multiply degrees.
proof fn lemma_prod_bounds(a: int, b: int)
    requires
        in_unit(a),
        in_unit(b),
    ensures
        0 <= a * b,
        a * b <= 1000 * a,
        a * b <= 1000 * b,
        a * b <= 1000 * 1000,
        0 <= (1000 - a) * (1000 - b),
        (1000 - a) * (1000 - b) == 1000 * 1000 - 1000 * (a + b) + a * b,
        0 <= 1000 * (a + b) - 2 * a * b,
{
    assert(0 <= a * b && a * b <= 1000 * a && a * b <= 1000 * b && a * b <= 1000 * 1000 && 0 <= (
    1000 - a) * (1000 - b) && (1000 - a) * (1000 - b) == 1000 * 1000 - 1000 * (a + b) + a * b && 0
        <= 1000 * (a + b) - 2 * a * b) by (nonlinear_arith)
        requires
            0 <= a <= 1000,
            0 <= b <= 1000,
    ;
}

/// A quotient of bounded nonnegative quantities stays on the unit
/// interval: if `0 <= num <= den * 1000`, then `0 <= num / den <= 1000`.
proof fn lemma_quotient_in_unit(num: int, den: int)
    requires
        0 < den,
        0 <= num,
        num <= den * 1000,
    ensures
        in_unit(num / den),
{
    lemma_div_pos_is_pos(num, den);
    lemma_multiply_divide_le(num, den, 1000);
}

/// Yager fuzzy operation set with `w = 1` (bounded sum and bounded
/// difference).
#[derive(Copy, Clone, PartialEq, Eq, PartialOrd, Ord, Debug)]
pub struct Yager1 {}

impl Opset for Yager1 {
    open spec fn spec_not(x: int) -> int {
        UNIT - x
    }

    open spec fn spec_or(a: int, b: int) -> int {
        if a + b <= UNIT {
            a + b
        } else {
            UNIT as int
        }
    }

    open spec fn spec_and(a: int, b: int) -> int {
        if a + b <= UNIT {
            0
        } else {
            a + b - UNIT
        }
    }

    proof fn ops_in_unit(a: int, b: int) {
    }

    fn not(val: Membership<Self>) -> (r: Membership<Self>) {
        let x = val.as_raw();
        Membership::unchecked_new(UNIT - x)
    }

    fn or(lhs: Membership<Self>, rhs: Membership<Self>) -> (r: Membership<Self>) {
        let s = lhs.as_raw() + rhs.as_raw();
        Membership::unchecked_new(if s <= UNIT { s } else { UNIT })
    }

    fn and(lhs: Membership<Self>, rhs: Membership<Self>) -> (r: Membership<Self>) {
        let s = lhs.as_raw() + rhs.as_raw();
        Membership::unchecked_new(if s <= UNIT { 0 } else { s - UNIT })
    }
}

/// Yager fuzzy operation set with `w -> inf` (maximum and minimum).
#[derive(Copy, Clone, PartialEq, Eq, PartialOrd, Ord, Debug)]
pub struct YagerInf {}

impl Opset for YagerInf {
    open spec fn spec_not(x: int) -> int {
        UNIT - x
    }

    open spec fn spec_or(a: int, b: int) -> int {
        if a >= b {
            a
        } else {
            b
        }
    }

    open spec fn spec_and(a: int, b: int) -> int {
        if a <= b {
            a
        } else {
            b
        }
    }

    proof fn ops_in_unit(a: int, b: int) {
    }

    fn not(val: Membership<Self>) -> (r: Membership<Self>) {
        let x = val.as_raw();
        Membership::unchecked_new(UNIT - x)
    }

    fn or(lhs: Membership<Self>, rhs: Membership<Self>) -> (r: Membership<Self>) {
        let a = lhs.as_raw();
        let b = rhs.as_raw();
        Membership::unchecked_new(if a >= b { a } else { b })
    }

    fn and(lhs: Membership<Self>, rhs: Membership<Self>) -> (r: Membership<Self>) {
        let a = lhs.as_raw();
        let b = rhs.as_raw();
        Membership::unchecked_new(if a <= b { a } else { b })
    }
}

/// Hamacher fuzzy operation set with `gamma = 0`. The corner cases
/// where the textbook quotients turn into `0 / 0` — both degrees at the
/// top for the alternative, both at the bottom for the conjunction —
/// take the value of the limit, so that both operations are total and
/// keep the unit interval.
#[derive(Copy, Clone, PartialEq, Eq, PartialOrd, Ord, Debug)]
pub struct Hamacher0 {}

impl Opset for Hamacher0 {
    open spec fn spec_not(x: int) -> int {
        UNIT - x
    }

    open spec fn spec_or(a: int, b: int) -> int {
        if a == UNIT && b == UNIT {
            UNIT as int
        } else {
            ((UNIT * (a + b) - 2 * a * b) * UNIT) / (UNIT * UNIT - a * b)
        }
    }

    open spec fn spec_and(a: int, b: int) -> int {
        if a == 0 && b == 0 {
            0
        } else {
            (UNIT * (a * b)) / (UNIT * (a + b) - a * b)
        }
    }

    proof fn ops_in_unit(a: int, b: int) {
        lemma_prod_bounds(a, b);
        if !(a == UNIT && b == UNIT) {
            let num = (1000 * (a + b) - 2 * a * b) * 1000;
            let den = 1000 * 1000 - a * b;
            assert(0 < den && 0 <= num && num <= den * 1000) by (nonlinear_arith)
                requires
                    0 <= a <= 1000,
                    0 <= b <= 1000,
                    !(a == 1000 && b == 1000),
                    num == (1000 * (a + b) - 2 * a * b) * 1000,
                    den == 1000 * 1000 - a * b,
                    0 <= (1000 - a) * (1000 - b),
                    (1000 - a) * (1000 - b) == 1000 * 1000 - 1000 * (a + b) + a * b,
                    0 <= 1000 * (a + b) - 2 * a * b,
            ;
            lemma_quotient_in_unit(num, den);
        }
        if !(a == 0 && b == 0) {
            let num = 1000 * (a * b);
            let den = 1000 * (a + b) - a * b;
            assert(0 < den && 0 <= num && num <= den * 1000) by (nonlinear_arith)
                requires
                    0 <= a <= 1000,
                    0 <= b <= 1000,
                    !(a == 0 && b == 0),
                    num == 1000 * (a * b),
                    den == 1000 * (a + b) - a * b,
            ;
            lemma_quotient_in_unit(num, den);
        }
    }

    fn not(val: Membership<Self>) -> (r: Membership<Self>) {
        let x = val.as_raw();
        Membership::unchecked_new(UNIT - x)
    }

    fn or(lhs: Membership<Self>, rhs: Membership<Self>) -> (r: Membership<Self>) {
        let a = lhs.as_raw();
        let b = rhs.as_raw();
        proof {
            Self::ops_in_unit(a as int, b as int);
            lemma_prod_bounds(a as int, b as int);
        }
        if a == UNIT && b == UNIT {
            Membership::unchecked_new(UNIT)
        } else {
            let num: u64 = ((UNIT as u64) * ((a + b) as u64) - 2 * (a as u64) * (b as u64)) * (
            UNIT as u64);
            let den: u64 = (UNIT as u64) * (UNIT as u64) - (a as u64) * (b as u64);
            Membership::unchecked_new((num / den) as u32)
        }
    }

    fn and(lhs: Membership<Self>, rhs: Membership<Self>) -> (r: Membership<Self>) {
        let a = lhs.as_raw();
        let b = rhs.as_raw();
        proof {
            Self::ops_in_unit(a as int, b as int);
            lemma_prod_bounds(a as int, b as int);
        }
        if a == 0 && b == 0 {
            Membership::unchecked_new(0)
        } else {
            let num: u64 = (UNIT as u64) * ((a as u64) * (b as u64));
            let den: u64 = (UNIT as u64) * ((a + b) as u64) - (a as u64) * (b as u64);
            Membership::unchecked_new((num / den) as u32)
        }
    }
}

/// Hamacher fuzzy operation set with `gamma = 1` (probabilistic sum and
/// product).
#[derive(Copy, Clone, PartialEq, Eq, PartialOrd, Ord, Debug)]
pub struct Hamacher1 {}

impl Opset for Hamacher1 {
    open spec fn spec_not(x: int) -> int {
        UNIT - x
    }

    open spec fn spec_or(a: int, b: int) -> int {
        a + b - (a * b) / (UNIT as int)
    }

    open spec fn spec_and(a: int, b: int) -> int {
        (a * b) / (UNIT as int)
    }

    proof fn ops_in_unit(a: int, b: int) {
        lemma_prod_bounds(a, b);
        lemma_quotient_in_unit(a * b, 1000);
        lemma_multiply_divide_le(a * b, 1000, a);
        lemma_multiply_divide_le(a * b, 1000, b);
        // The alternative never exceeds the top of the interval:
        // `a + b - (a * b) / 1000` equals
        // `1000 - ((1000 - a) * (1000 - b)) / 1000`.
        lemma_hoist_over_denominator(a * b, 1000 - a - b, 1000);
        assert((a * b + (1000 - a - b) * 1000) == (1000 - a) * (1000 - b)) by (nonlinear_arith);
        lemma_div_pos_is_pos((1000 - a) * (1000 - b), 1000);
    }

    fn not(val: Membership<Self>) -> (r: Membership<Self>) {
        let x = val.as_raw();
        Membership::unchecked_new(UNIT - x)
    }

    fn or(lhs: Membership<Self>, rhs: Membership<Self>) -> (r: Membership<Self>) {
        let a = lhs.as_raw();
        let b = rhs.as_raw();
        proof {
            Self::ops_in_unit(a as int, b as int);
            lemma_prod_bounds(a as int, b as int);
            lemma_multiply_divide_le((a * b) as int, 1000, a as int);
        }
        let p: u64 = ((a as u64) * (b as u64)) / (UNIT as u64);
        Membership::unchecked_new(a + b - (p as u32))
    }

    fn and(lhs: Membership<Self>, rhs: Membership<Self>) -> (r: Membership<Self>) {
        let a = lhs.as_raw();
        let b = rhs.as_raw();
        proof {
            Self::ops_in_unit(a as int, b as int);
            lemma_prod_bounds(a as int, b as int);
        }
        let p: u64 = ((a as u64) * (b as u64)) / (UNIT as u64);
        Membership::unchecked_new(p as u32)
    }
}

/// Hamacher fuzzy operation set with `gamma = 2` (the Einstein sum,
/// with the matching Hamacher conjunction).
#[derive(Copy, Clone, PartialEq, Eq, PartialOrd, Ord, Debug)]
pub struct Hamacher2 {}

impl Opset for Hamacher2 {
    open spec fn spec_not(x: int) -> int {
        UNIT - x
    }

    open spec fn spec_or(a: int, b: int) -> int {
        ((a + b) * (UNIT * UNIT)) / (UNIT * UNIT + a * b)
    }

    open spec fn spec_and(a: int, b: int) -> int {
        (UNIT * (a * b)) / (2 * (UNIT * UNIT) - UNIT * (a + b) + a * b)
    }

    proof fn ops_in_unit(a: int, b: int) {
        lemma_prod_bounds(a, b);
        let onum = (a + b) * (1000 * 1000);
        let oden = 1000 * 1000 + a * b;
        assert(0 < oden && 0 <= onum && onum <= oden * 1000) by (nonlinear_arith)
            requires
                0 <= a <= 1000,
                0 <= b <= 1000,
                onum == (a + b) * (1000 * 1000),
                oden == 1000 * 1000 + a * b,
                0 <= (1000 - a) * (1000 - b),
                (1000 - a) * (1000 - b) == 1000 * 1000 - 1000 * (a + b) + a * b,
        ;
        lemma_quotient_in_unit(onum, oden);
        let anum = 1000 * (a * b);
        let aden = 2 * (1000 * 1000) - 1000 * (a + b) + a * b;
        assert(0 < aden && 0 <= anum && anum <= aden * 1000) by (nonlinear_arith)
            requires
                0 <= a <= 1000,
                0 <= b <= 1000,
                anum == 1000 * (a * b),
                aden == 2 * (1000 * 1000) - 1000 * (a + b) + a * b,
                0 <= (1000 - a) * (1000 - b),
                (1000 - a) * (1000 - b) == 1000 * 1000 - 1000 * (a + b) + a * b,
        ;
        lemma_quotient_in_unit(anum, aden);
    }

    fn not(val: Membership<Self>) -> (r: Membership<Self>) {
        let x = val.as_raw();
        Membership::unchecked_new(UNIT - x)
    }

    fn or(lhs: Membership<Self>, rhs: Membership<Self>) -> (r: Membership<Self>) {
        let a = lhs.as_raw();
        let b = rhs.as_raw();
        proof {
            Self::ops_in_unit(a as int, b as int);
            lemma_prod_bounds(a as int, b as int);
        }
        let num: u64 = (((a + b) as u64)) * ((UNIT as u64) * (UNIT as u64));
        let den: u64 = (UNIT as u64) * (UNIT as u64) + (a as u64) * (b as u64);
        Membership::unchecked_new((num / den) as u32)
    }

    fn and(lhs: Membership<Self>, rhs: Membership<Self>) -> (r: Membership<Self>) {
        let a = lhs.as_raw();
        let b = rhs.as_raw();
        proof {
            Self::ops_in_unit(a as int, b as int);
            lemma_prod_bounds(a as int, b as int);
        }
        let num: u64 = (UNIT as u64) * ((a as u64) * (b as u64));
        let den: u64 = 2 * ((UNIT as u64) * (UNIT as u64)) - (UNIT as u64) * ((a + b) as u64) + (
        a as u64) * (b as u64);
        Membership::unchecked_new((num / den) as u32)
    }
}

} // verus!
