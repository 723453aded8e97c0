//! Statically typed zero-cost tags, one per letter: ready-made labels
//! that occupy no memory and render as a single lowercase letter.

use vstd::prelude::*;

use crate::expr::tagged::Tag;

verus! {

/// Zero-cost tag rendering as `a`.
#[derive(Clone, Copy, PartialEq, Eq, PartialOrd, Ord, Debug)]
pub struct TagA;

impl Tag for TagA {
    open spec fn spec_text(&self) -> Seq<char> {
        seq!['a']
    }

    fn text(&self) -> (r: String) {
        proof {
            reveal_strlit("a");
        }
        let r = String::from_str("a");
        proof {
            assert(r@ =~= seq!['a']);
        }
        r
    }
}

/// Zero-cost tag rendering as `b`.
#[derive(Clone, Copy, PartialEq, Eq, PartialOrd, Ord, Debug)]
pub struct TagB;

impl Tag for TagB {
    open spec fn spec_text(&self) -> Seq<char> {
        seq!['b']
    }

    fn text(&self) -> (r: String) {
        proof {
            reveal_strlit("b");
        }
        let r = String::from_str("b");
        proof {
            assert(r@ =~= seq!['b']);
        }
        r
    }
}

/// Zero-cost tag rendering as `c`.
#[derive(Clone, Copy, PartialEq, Eq, PartialOrd, Ord, Debug)]
pub struct TagC;

impl Tag for TagC {
    open spec fn spec_text(&self) -> Seq<char> {
        seq!['c']
    }

    fn text(&self) -> (r: String) {
        proof {
            reveal_strlit("c");
        }
        let r = String::from_str("c");
        proof {
            assert(r@ =~= seq!['c']);
        }
        r
    }
}

/// Zero-cost tag rendering as `d`.
#[derive(Clone, Copy, PartialEq, Eq, PartialOrd, Ord, Debug)]
pub struct TagD;

impl Tag for TagD {
    open spec fn spec_text(&self) -> Seq<char> {
        seq!['d']
    }

    fn text(&self) -> (r: String) {
        proof {
            reveal_strlit("d");
        }
        let r = String::from_str("d");
        proof {
            assert(r@ =~= seq!['d']);
        }
        r
    }
}

/// Zero-cost tag rendering as `e`.
#[derive(Clone, Copy, PartialEq, Eq, PartialOrd, Ord, Debug)]
pub struct TagE;

impl Tag for TagE {
    open spec fn spec_text(&self) -> Seq<char> {
        seq!['e']
    }

    fn text(&self) -> (r: String) {
        proof {
            reveal_strlit("e");
        }
        let r = String::from_str("e");
        proof {
            assert(r@ =~= seq!['e']);
        }
        r
    }
}

/// Zero-cost tag rendering as `f`.
#[derive(Clone, Copy, PartialEq, Eq, PartialOrd, Ord, Debug)]
pub struct TagF;

impl Tag for TagF {
    open spec fn spec_text(&self) -> Seq<char> {
        seq!['f']
    }

    fn text(&self) -> (r: String) {
        proof {
            reveal_strlit("f");
        }
        let r = String::from_str("f");
        proof {
            assert(r@ =~= seq!['f']);
        }
        r
    }
}

/// Zero-cost tag rendering as `g`.
#[derive(Clone, Copy, PartialEq, Eq, PartialOrd, Ord, Debug)]
pub struct TagG;

impl Tag for TagG {
    open spec fn spec_text(&self) -> Seq<char> {
        seq!['g']
    }

    fn text(&self) -> (r: String) {
        proof {
            reveal_strlit("g");
        }
        let r = String::from_str("g");
        proof {
            assert(r@ =~= seq!['g']);
        }
        r
    }
}

/// Zero-cost tag rendering as `h`.
#[derive(Clone, Copy, PartialEq, Eq, PartialOrd, Ord, Debug)]
pub struct TagH;

impl Tag for TagH {
    open spec fn spec_text(&self) -> Seq<char> {
        seq!['h']
    }

    fn text(&self) -> (r: String) {
        proof {
            reveal_strlit("h");
        }
        let r = String::from_str("h");
        proof {
            assert(r@ =~= seq!['h']);
        }
        r
    }
}

/// Zero-cost tag rendering as `i`.
#[derive(Clone, Copy, PartialEq, Eq, PartialOrd, Ord, Debug)]
pub struct TagI;

impl Tag for TagI {
    open spec fn spec_text(&self) -> Seq<char> {
        seq!['i']
    }

    fn text(&self) -> (r: String) {
        proof {
            reveal_strlit("i");
        }
        let r = String::from_str("i");
        proof {
            assert(r@ =~= seq!['i']);
        }
        r
    }
}

/// Zero-cost tag rendering as `j`.
#[derive(Clone, Copy, PartialEq, Eq, PartialOrd, Ord, Debug)]
pub struct TagJ;

impl Tag for TagJ {
    open spec fn spec_text(&self) -> Seq<char> {
        seq!['j']
    }

    fn text(&self) -> (r: String) {
        proof {
            reveal_strlit("j");
        }
        let r = String::from_str("j");
        proof {
            assert(r@ =~= seq!['j']);
        }
        r
    }
}

/// Zero-cost tag rendering as `k`.
#[derive(Clone, Copy, PartialEq, Eq, PartialOrd, Ord, Debug)]
pub struct TagK;

impl Tag for TagK {
    open spec fn spec_text(&self) -> Seq<char> {
        seq!['k']
    }

    fn text(&self) -> (r: String) {
        proof {
            reveal_strlit("k");
        }
        let r = String::from_str("k");
        proof {
            assert(r@ =~= seq!['k']);
        }
        r
    }
}

/// Zero-cost tag rendering as `l`.
#[derive(Clone, Copy, PartialEq, Eq, PartialOrd, Ord, Debug)]
pub struct TagL;

impl Tag for TagL {
    open spec fn spec_text(&self) -> Seq<char> {
        seq!['l']
    }

    fn text(&self) -> (r: String) {
        proof {
            reveal_strlit("l");
        }
        let r = String::from_str("l");
        proof {
            assert(r@ =~= seq!['l']);
        }
        r
    }
}

/// Zero-cost tag rendering as `m`.
#[derive(Clone, Copy, PartialEq, Eq, PartialOrd, Ord, Debug)]
pub struct TagM;

impl Tag for TagM {
    open spec fn spec_text(&self) -> Seq<char> {
        seq!['m']
    }

    fn text(&self) -> (r: String) {
        proof {
            reveal_strlit("m");
        }
        let r = String::from_str("m");
        proof {
            assert(r@ =~= seq!['m']);
        }
        r
    }
}

/// Zero-cost tag rendering as `n`.
#[derive(Clone, Copy, PartialEq, Eq, PartialOrd, Ord, Debug)]
pub struct TagN;

impl Tag for TagN {
    open spec fn spec_text(&self) -> Seq<char> {
        seq!['n']
    }

    fn text(&self) -> (r: String) {
        proof {
            reveal_strlit("n");
        }
        let r = String::from_str("n");
        proof {
            assert(r@ =~= seq!['n']);
        }
        r
    }
}

/// Zero-cost tag rendering as `o`.
#[derive(Clone, Copy, PartialEq, Eq, PartialOrd, Ord, Debug)]
pub struct TagO;

impl Tag for TagO {
    open spec fn spec_text(&self) -> Seq<char> {
        seq!['o']
    }

    fn text(&self) -> (r: String) {
        proof {
            reveal_strlit("o");
        }
        let r = String::from_str("o");
        proof {
            assert(r@ =~= seq!['o']);
        }
        r
    }
}

/// Zero-cost tag rendering as `p`.
#[derive(Clone, Copy, PartialEq, Eq, PartialOrd, Ord, Debug)]
pub struct TagP;

impl Tag for TagP {
    open spec fn spec_text(&self) -> Seq<char> {
        seq!['p']
    }

    fn text(&self) -> (r: String) {
        proof {
            reveal_strlit("p");
        }
        let r = String::from_str("p");
        proof {
            assert(r@ =~= seq!['p']);
        }
        r
    }
}

/// Zero-cost tag rendering as `q`.
#[derive(Clone, Copy, PartialEq, Eq, PartialOrd, Ord, Debug)]
pub struct TagQ;

impl Tag for TagQ {
    open spec fn spec_text(&self) -> Seq<char> {
        seq!['q']
    }

    fn text(&self) -> (r: String) {
        proof {
            reveal_strlit("q");
        }
        let r = String::from_str("q");
        proof {
            assert(r@ =~= seq!['q']);
        }
        r
    }
}

/// Zero-cost tag rendering as `r`.
#[derive(Clone, Copy, PartialEq, Eq, PartialOrd, Ord, Debug)]
pub struct TagR;

impl Tag for TagR {
    open spec fn spec_text(&self) -> Seq<char> {
        seq!['r']
    }

    fn text(&self) -> (r: String) {
        proof {
            reveal_strlit("r");
        }
        let r = String::from_str("r");
        proof {
            assert(r@ =~= seq!['r']);
        }
        r
    }
}

/// Zero-cost tag rendering as `s`.
#[derive(Clone, Copy, PartialEq, Eq, PartialOrd, Ord, Debug)]
pub struct TagS;

impl Tag for TagS {
    open spec fn spec_text(&self) -> Seq<char> {
        seq!['s']
    }

    fn text(&self) -> (r: String) {
        proof {
            reveal_strlit("s");
        }
        let r = String::from_str("s");
        proof {
            assert(r@ =~= seq!['s']);
        }
        r
    }
}

/// Zero-cost tag rendering as `t`.
#[derive(Clone, Copy, PartialEq, Eq, PartialOrd, Ord, Debug)]
pub struct TagT;

impl Tag for TagT {
    open spec fn spec_text(&self) -> Seq<char> {
        seq!['t']
    }

    fn text(&self) -> (r: String) {
        proof {
            reveal_strlit("t");
        }
        let r = String::from_str("t");
        proof {
            assert(r@ =~= seq!['t']);
        }
        r
    }
}

/// Zero-cost tag rendering as `u`.
#[derive(Clone, Copy, PartialEq, Eq, PartialOrd, Ord, Debug)]
pub struct TagU;

impl Tag for TagU {
    open spec fn spec_text(&self) -> Seq<char> {
        seq!['u']
    }

    fn text(&self) -> (r: String) {
        proof {
            reveal_strlit("u");
        }
        let r = String::from_str("u");
        proof {
            assert(r@ =~= seq!['u']);
        }
        r
    }
}

/// Zero-cost tag rendering as `v`.
#[derive(Clone, Copy, PartialEq, Eq, PartialOrd, Ord, Debug)]
pub struct TagV;

impl Tag for TagV {
    open spec fn spec_text(&self) -> Seq<char> {
        seq!['v']
    }

    fn text(&self) -> (r: String) {
        proof {
            reveal_strlit("v");
        }
        let r = String::from_str("v");
        proof {
            assert(r@ =~= seq!['v']);
        }
        r
    }
}

/// Zero-cost tag rendering as `w`.
#[derive(Clone, Copy, PartialEq, Eq, PartialOrd, Ord, Debug)]
pub struct TagW;

impl Tag for TagW {
    open spec fn spec_text(&self) -> Seq<char> {
        seq!['w']
    }

    fn text(&self) -> (r: String) {
        proof {
            reveal_strlit("w");
        }
        let r = String::from_str("w");
        proof {
            assert(r@ =~= seq!['w']);
        }
        r
    }
}

/// Zero-cost tag rendering as `x`.
#[derive(Clone, Copy, PartialEq, Eq, PartialOrd, Ord, Debug)]
pub struct TagX;

impl Tag for TagX {
    open spec fn spec_text(&self) -> Seq<char> {
        seq!['x']
    }

    fn text(&self) -> (r: String) {
        proof {
            reveal_strlit("x");
        }
        let r = String::from_str("x");
        proof {
            assert(r@ =~= seq!['x']);
        }
        r
    }
}

/// Zero-cost tag rendering as `y`.
#[derive(Clone, Copy, PartialEq, Eq, PartialOrd, Ord, Debug)]
pub struct TagY;

impl Tag for TagY {
    open spec fn spec_text(&self) -> Seq<char> {
        seq!['y']
    }

    fn text(&self) -> (r: String) {
        proof {
            reveal_strlit("y");
        }
        let r = String::from_str("y");
        proof {
            assert(r@ =~= seq!['y']);
        }
        r
    }
}

/// Zero-cost tag rendering as `z`.
#[derive(Clone, Copy, PartialEq, Eq, PartialOrd, Ord, Debug)]
pub struct TagZ;

impl Tag for TagZ {
    open spec fn spec_text(&self) -> Seq<char> {
        seq!['z']
    }

    fn text(&self) -> (r: String) {
        proof {
            reveal_strlit("z");
        }
        let r = String::from_str("z");
        proof {
            assert(r@ =~= seq!['z']);
        }
        r
    }
}

} // verus!
