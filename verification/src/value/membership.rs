use vstd::prelude::*;

use core::marker::PhantomData;

use crate::opset::traits::Opset;
use crate::value::traits::Value;

verus! {

/// Raw representation of a fuzzy membership value: a whole number of
/// thousandths of the unit interval, so `0` stands for `0.0` and
/// [`UNIT`] stands for `1.0`.
pub type Raw = u32;

/// The raw value that stands for `1.0`. A raw value `r` represents the
/// degree of truth `r / 1000`.
pub const UNIT: Raw = 1000;

/// Whether a mathematical value lies on the represented unit interval.
pub open spec fn in_unit(m: int) -> bool {
    0 <= m <= UNIT
}

/// The character for one decimal digit.
pub open spec fn spec_digit(d: int) -> char {
    if d == 0 {
        '0'
    } else if d == 1 {
        '1'
    } else if d == 2 {
        '2'
    } else if d == 3 {
        '3'
    } else if d == 4 {
        '4'
    } else if d == 5 {
        '5'
    } else if d == 6 {
        '6'
    } else if d == 7 {
        '7'
    } else if d == 8 {
        '8'
    } else {
        '9'
    }
}

/// The decimal text of a raw membership value: the represented number
/// between `0` and `1`, with no trailing zeros and no fractional part
/// when it is whole, as in `0`, `0.25` or `1`.
pub open spec fn spec_render_raw(m: int) -> Seq<char> {
    if m == UNIT {
        seq!['1']
    } else if m == 0 {
        seq!['0']
    } else if m % 10 != 0 {
        seq!['0', '.', spec_digit(m / 100), spec_digit((m / 10) % 10), spec_digit(m % 10)]
    } else if (m / 10) % 10 != 0 {
        seq!['0', '.', spec_digit(m / 100), spec_digit((m / 10) % 10)]
    } else {
        seq!['0', '.', spec_digit(m / 100)]
    }
}

/// The text of one decimal digit.
fn digit_str(d: u32) -> (r: &'static str)
    requires
        d < 10,
    ensures
        r@ == seq![spec_digit(d as int)],
{
    proof {
        reveal_strlit("0");
        reveal_strlit("1");
        reveal_strlit("2");
        reveal_strlit("3");
        reveal_strlit("4");
        reveal_strlit("5");
        reveal_strlit("6");
        reveal_strlit("7");
        reveal_strlit("8");
        reveal_strlit("9");
    }
    let r = match d {
        0 => "0",
        1 => "1",
        2 => "2",
        3 => "3",
        4 => "4",
        5 => "5",
        6 => "6",
        7 => "7",
        8 => "8",
        _ => "9",
    };
    proof {
        assert(r@ =~= seq![spec_digit(d as int)]);
    }
    r
}

/// Atomic fuzzy membership degree: a degree of truth on the unit
/// interval, tied to the operation set `S` under which it will be
/// combined with other degrees.
#[derive(Copy, PartialEq, PartialOrd, Debug)]
pub struct Membership<S>(Raw, PhantomData<S>);

impl<S> View for Membership<S> {
    type V = int;

    closed spec fn view(&self) -> int {
        self.0 as int
    }
}

impl<S> Membership<S> {
    /// Every membership degree ever constructed lies on the unit
    /// interval.
    #[verifier::type_invariant]
    pub open spec fn valid(self) -> bool {
        in_unit(self@)
    }

    /// Creates a membership value from a raw value, which must lie on
    /// the unit interval.
    pub fn new(val: Raw) -> (r: Self)
        requires
            in_unit(val as int),
        ensures
            r@ == val,
    {
        Self::unchecked_new(val)
    }

    /// Creates a membership value from a raw value whose bound the
    /// caller has already established.
    pub fn unchecked_new(val: Raw) -> (r: Self)
        requires
            in_unit(val as int),
        ensures
            r@ == val,
    {
        Membership(val, PhantomData)
    }

    /// Creates a membership value from a raw value, or `None` when the
    /// value lies outside the unit interval.
    pub fn try_new(val: Raw) -> (r: Option<Self>)
        ensures
            in_unit(val as int) ==> (r matches Some(m) && m@ == val),
            !in_unit(val as int) ==> r is None,
    {
        if val <= UNIT {
            Some(Self::unchecked_new(val))
        } else {
            None
        }
    }

    /// Creates a membership value from a raw value, saturating to the
    /// nearest bound of the unit interval.
    pub fn with_fit(val: Raw) -> (r: Self)
        ensures
            r@ == if val <= UNIT { val as int } else { UNIT as int },
    {
        let val = if val > UNIT { UNIT } else { val };
        Self::unchecked_new(val)
    }

    /// The decimal text of the represented degree, as
    /// [`spec_render_raw`] states it.
    pub fn to_string(&self) -> (r: String)
        ensures
            r@ == spec_render_raw(self@),
    {
        proof {
            use_type_invariant(self);
            reveal_strlit("0");
            reveal_strlit("1");
            reveal_strlit("0.");
        }
        let m = self.0;
        if m == UNIT {
            let r = String::from_str("1");
            proof {
                assert(r@ =~= spec_render_raw(self@));
            }
            r
        } else if m == 0 {
            let r = String::from_str("0");
            proof {
                assert(r@ =~= spec_render_raw(self@));
            }
            r
        } else {
            let mut r = String::from_str("0.");
            r.append(digit_str(m / 100));
            if (m / 10) % 10 != 0 || m % 10 != 0 {
                r.append(digit_str((m / 10) % 10));
            }
            if m % 10 != 0 {
                r.append(digit_str(m % 10));
            }
            proof {
                assert(r@ =~= spec_render_raw(self@));
            }
            r
        }
    }

    /// The membership value holding a given number, at the spec level.
    pub closed spec fn spec_new(m: int) -> Membership<S> {
        Membership(m as u32, PhantomData)
    }

    /// For a number on the raw range, [`Membership::spec_new`] holds
    /// exactly that number.
    pub proof fn lemma_spec_new(m: int)
        requires
            0 <= m <= u32::MAX,
        ensures
            Self::spec_new(m)@ == m,
    {
    }

    /// Two membership degrees representing one number are one value.
    pub proof fn lemma_eq_view(a: Membership<S>, b: Membership<S>)
        requires
            a@ == b@,
        ensures
            a == b,
    {
    }

    /// Raw numerical value of the membership degree, in thousandths.
    pub fn as_raw(self) -> (r: Raw)
        ensures
            r == self@,
            in_unit(r as int),
    {
        proof {
            use_type_invariant(&self);
        }
        self.0
    }
}

impl<S> Clone for Membership<S> {
    /// A membership degree is a plain value; its clone is itself.
    fn clone(&self) -> (r: Self)
        ensures
            r == *self,
    {
        proof {
            use_type_invariant(self);
        }
        Membership(self.0, PhantomData)
    }
}

impl<S> Default for Membership<S> {
    /// The degree of complete falsehood.
    fn default() -> (r: Self)
        ensures
            r@ == 0,
    {
        Membership::new(0)
    }
}

impl<S: Opset> core::ops::Not for Membership<S> {
    type Output = Membership<S>;

    /// `!a`: the fuzzy negation of this degree under `S`.
    fn not(self) -> (r: Membership<S>) {
        let r = S::not(self);
        proof {
            use_type_invariant(&r);
            Membership::<S>::lemma_spec_new(r@);
            Membership::<S>::lemma_eq_view(
                r,
                Membership::<S>::spec_new(S::spec_not(self@)),
            );
        }
        r
    }
}

impl<S: Opset> vstd::std_specs::ops::NotSpecImpl for Membership<S> {
    open spec fn obeys_not_spec() -> bool {
        true
    }

    open spec fn not_req(self) -> bool {
        true
    }

    open spec fn not_spec(self) -> Membership<S> {
        Membership::spec_new(S::spec_not(self@))
    }
}

impl<S: Opset, B: Value<S>> core::ops::BitAnd<B> for Membership<S> {
    type Output = Membership<S>;

    /// `a & b`: the fuzzy conjunction of this degree with another
    /// fuzzy value of `S`.
    fn bitand(self, rhs: B) -> (r: Membership<S>) {
        let m = rhs.membership();
        let r = S::and(self, m);
        proof {
            use_type_invariant(&r);
            Membership::<S>::lemma_spec_new(r@);
            Membership::<S>::lemma_eq_view(
                r,
                Membership::<S>::spec_new(S::spec_and(self@, rhs.spec_membership())),
            );
        }
        r
    }
}

impl<S: Opset, B: Value<S>> vstd::std_specs::ops::BitAndSpecImpl<B> for Membership<S> {
    open spec fn obeys_bitand_spec() -> bool {
        true
    }

    open spec fn bitand_req(self, rhs: B) -> bool {
        true
    }

    open spec fn bitand_spec(self, rhs: B) -> Membership<S> {
        Membership::spec_new(S::spec_and(self@, rhs.spec_membership()))
    }
}

impl<S: Opset, B: Value<S>> core::ops::BitOr<B> for Membership<S> {
    type Output = Membership<S>;

    /// `a | b`: the fuzzy alternative of this degree with another
    /// fuzzy value of `S`.
    fn bitor(self, rhs: B) -> (r: Membership<S>) {
        let m = rhs.membership();
        let r = S::or(self, m);
        proof {
            use_type_invariant(&r);
            Membership::<S>::lemma_spec_new(r@);
            Membership::<S>::lemma_eq_view(
                r,
                Membership::<S>::spec_new(S::spec_or(self@, rhs.spec_membership())),
            );
        }
        r
    }
}

impl<S: Opset, B: Value<S>> vstd::std_specs::ops::BitOrSpecImpl<B> for Membership<S> {
    open spec fn obeys_bitor_spec() -> bool {
        true
    }

    open spec fn bitor_req(self, rhs: B) -> bool {
        true
    }

    open spec fn bitor_spec(self, rhs: B) -> Membership<S> {
        Membership::spec_new(S::spec_or(self@, rhs.spec_membership()))
    }
}

} // verus!
