use crate::arith::int_cmp;
use crate::bigint::Sign;
use crate::number::Number;
use std::cmp::Ordering;
use vstd::prelude::*;

verus! {

/// The order of two fractions' values: since both denominators are positive,
/// `a < b` exactly when `a.num * b.den < b.num * a.den`.
pub open spec fn value_cmp(a: &Number, b: &Number) -> Ordering {
    int_cmp(a.num() * b.den(), b.num() * a.den())
}

/// Multiplying both sides by a positive factor keeps their order.
proof fn lemma_cmp_scale(x: int, y: int, d: int)
    requires
        d > 0,
    ensures
        int_cmp(x * d, y * d) == int_cmp(x, y),
{
    if x < y {
        assert(x * d < y * d) by (nonlinear_arith)
            requires
                x < y,
                d > 0,
        ;
    } else if x > y {
        assert(x * d > y * d) by (nonlinear_arith)
            requires
                x > y,
                d > 0,
        ;
    }
}

/// Compares the values of two fractions. Opposite or zero signs decide
/// alone; equal denominators compare numerators; otherwise the cross
/// products are compared.
pub fn compare(a: &Number, b: &Number) -> (r: Ordering)
    ensures
        r == value_cmp(a, b),
{
    proof {
        use_type_invariant(a);
        use_type_invariant(b);
    }
    let ghost (an, ad, bn, bd) = (a.num(), a.den(), b.num(), b.den());
    match (a.sign(), b.sign()) {
        (Sign::Plus, Sign::Plus) | (Sign::Minus, Sign::Minus) => {
            if a.denominator() == b.denominator() {
                proof {
                    lemma_cmp_scale(an, bn, ad);
                }
                a.numerator().compare(b.numerator())
            } else {
                let a_new = a.numerator().mul(b.denominator());
                let b_new = b.numerator().mul(a.denominator());
                a_new.compare(&b_new)
            }
        },
        (Sign::NoSign, Sign::Plus) => {
            assert(bn * ad > 0 && an * bd == 0) by (nonlinear_arith)
                requires
                    an == 0,
                    bn > 0,
                    ad > 0,
            ;
            Ordering::Less
        },
        (Sign::NoSign, Sign::NoSign) => {
            assert(an * bd == 0 && bn * ad == 0) by (nonlinear_arith)
                requires
                    an == 0,
                    bn == 0,
            ;
            Ordering::Equal
        },
        (Sign::NoSign, Sign::Minus) => {
            assert(bn * ad < 0 && an * bd == 0) by (nonlinear_arith)
                requires
                    an == 0,
                    bn < 0,
                    ad > 0,
            ;
            Ordering::Greater
        },
        (Sign::Plus, Sign::NoSign) => {
            assert(an * bd > 0 && bn * ad == 0) by (nonlinear_arith)
                requires
                    bn == 0,
                    an > 0,
                    bd > 0,
            ;
            Ordering::Greater
        },
        (Sign::Plus, Sign::Minus) => {
            assert(an * bd > 0 && bn * ad < 0) by (nonlinear_arith)
                requires
                    an > 0,
                    bd > 0,
                    bn < 0,
                    ad > 0,
            ;
            Ordering::Greater
        },
        (Sign::Minus, Sign::NoSign) => {
            assert(an * bd < 0 && bn * ad == 0) by (nonlinear_arith)
                requires
                    bn == 0,
                    an < 0,
                    bd > 0,
            ;
            Ordering::Less
        },
        (Sign::Minus, Sign::Plus) => {
            assert(an * bd < 0 && bn * ad > 0) by (nonlinear_arith)
                requires
                    an < 0,
                    bd > 0,
                    bn > 0,
                    ad > 0,
            ;
            Ordering::Less
        },
    }
}

impl PartialEq for Number {
    fn eq(&self, other: &Number) -> (r: bool) {
        match compare(self, other) {
            Ordering::Equal => true,
            _ => false,
        }
    }
}

impl vstd::std_specs::cmp::PartialEqSpecImpl for Number {
    open spec fn obeys_eq_spec() -> bool {
        true
    }

    open spec fn eq_spec(&self, other: &Number) -> bool {
        self.num() * other.den() == other.num() * self.den()
    }
}

impl Eq for Number {
}

impl PartialOrd for Number {
    fn partial_cmp(&self, other: &Number) -> (r: Option<Ordering>) {
        Some(compare(self, other))
    }
}

impl vstd::std_specs::cmp::PartialOrdSpecImpl for Number {
    open spec fn obeys_partial_cmp_spec() -> bool {
        true
    }

    open spec fn partial_cmp_spec(&self, other: &Number) -> Option<Ordering> {
        Some(value_cmp(self, other))
    }
}

} // verus!
