use crate::arith::lemma_canonical_unique;
use crate::compare::value_cmp;
use crate::number::Number;
use crate::ops::{is_difference, is_product, is_quotient, is_sum};
use std::cmp::Ordering;
use vstd::prelude::*;

verus! {

/// Two fractions built from proportional parts are the same fraction: the
/// result depends on the value alone, not on how it was written.
pub proof fn lemma_construct_by_value(x: &Number, y: &Number, n1: int, d1: int, n2: int, d2: int)
    requires
        x.wf(),
        y.wf(),
        d1 != 0,
        d2 != 0,
        x.has_value(n1, d1),
        y.has_value(n2, d2),
        n1 * d2 == n2 * d1,
    ensures
        x.num() == y.num(),
        x.den() == y.den(),
{
    let (xn, xd, yn, yd) = (x.num(), x.den(), y.num(), y.den());
    assert((xn * yd - yn * xd) * (d1 * d2) == 0) by (nonlinear_arith)
        requires
            xn * d1 == n1 * xd,
            yn * d2 == n2 * yd,
            n1 * d2 == n2 * d1,
    ;
    assert(d1 * d2 != 0) by (nonlinear_arith)
        requires
            d1 != 0,
            d2 != 0,
    ;
    assert(xn * yd == yn * xd) by (nonlinear_arith)
        requires
            (xn * yd - yn * xd) * (d1 * d2) == 0,
            d1 * d2 != 0,
    ;
    lemma_canonical_unique(xn, xd, yn, yd);
}

/// Every fraction compares equal to itself.
pub proof fn lemma_compare_reflexive(a: &Number)
    ensures
        value_cmp(a, a) == Ordering::Equal,
{
    assert(a.num() * a.den() == a.num() * a.den());
}

/// Swapping the operands reverses the order, and fractions that compare
/// equal are the same fraction.
pub proof fn lemma_compare_antisymmetric(a: &Number, b: &Number)
    requires
        a.wf(),
        b.wf(),
    ensures
        (value_cmp(a, b) == Ordering::Less) == (value_cmp(b, a) == Ordering::Greater),
        (value_cmp(a, b) == Ordering::Equal) == (value_cmp(b, a) == Ordering::Equal),
        value_cmp(a, b) == Ordering::Equal ==> a.num() == b.num() && a.den() == b.den(),
{
    if value_cmp(a, b) == Ordering::Equal {
        lemma_canonical_unique(a.num(), a.den(), b.num(), b.den());
    }
}

/// Every two fractions are ordered one way or the other, or are the same.
pub proof fn lemma_compare_total(a: &Number, b: &Number)
    requires
        a.wf(),
        b.wf(),
    ensures
        value_cmp(a, b) == Ordering::Less || value_cmp(b, a) == Ordering::Less || (a.num() == b.num()
            && a.den() == b.den()),
{
    lemma_compare_antisymmetric(a, b);
}

/// The order is transitive.
pub proof fn lemma_compare_transitive(a: &Number, b: &Number, c: &Number)
    requires
        a.wf(),
        b.wf(),
        c.wf(),
    ensures
        value_cmp(a, b) != Ordering::Greater && value_cmp(b, c) != Ordering::Greater ==> value_cmp(
            a,
            c,
        ) != Ordering::Greater,
        value_cmp(a, b) == Ordering::Less && value_cmp(b, c) != Ordering::Greater ==> value_cmp(a, c)
            == Ordering::Less,
        value_cmp(a, b) != Ordering::Greater && value_cmp(b, c) == Ordering::Less ==> value_cmp(a, c)
            == Ordering::Less,
{
    let (an, ad, bn, bd, cn, cd) = (a.num(), a.den(), b.num(), b.den(), c.num(), c.den());
    if an * bd <= bn * ad && bn * cd <= cn * bd {
        assert(an * cd <= cn * ad) by (nonlinear_arith)
            requires
                an * bd <= bn * ad,
                bn * cd <= cn * bd,
                ad > 0,
                bd > 0,
                cd > 0,
        ;
        if an * bd < bn * ad || bn * cd < cn * bd {
            assert(an * cd < cn * ad) by (nonlinear_arith)
                requires
                    an * bd <= bn * ad,
                    bn * cd <= cn * bd,
                    an * bd < bn * ad || bn * cd < cn * bd,
                    ad > 0,
                    bd > 0,
                    cd > 0,
            ;
        }
    }
}

/// Adding zero gives back the same fraction.
pub proof fn lemma_add_zero(x: &Number, zero: &Number, r: &Number)
    requires
        x.wf(),
        zero.num() == 0,
        zero.den() == 1,
        is_sum(r, x, zero),
    ensures
        r.num() == x.num(),
        r.den() == x.den(),
{
    lemma_canonical_unique(r.num(), r.den(), x.num(), x.den());
}

/// Multiplying by one gives back the same fraction.
pub proof fn lemma_mul_one(x: &Number, one: &Number, r: &Number)
    requires
        x.wf(),
        one.num() == 1,
        one.den() == 1,
        is_product(r, x, one),
    ensures
        r.num() == x.num(),
        r.den() == x.den(),
{
    lemma_canonical_unique(r.num(), r.den(), x.num(), x.den());
}

/// A non-zero fraction divided by itself is one.
pub proof fn lemma_div_self(x: &Number, r: &Number)
    requires
        x.wf(),
        x.num() != 0,
        is_quotient(r, x, x),
    ensures
        r.num() == 1,
        r.den() == 1,
{
    let (xn, xd, rn, rd) = (x.num(), x.den(), r.num(), r.den());
    assert(rn == rd) by (nonlinear_arith)
        requires
            rn * (xd * xn) == (xn * xd) * rd,
            xn != 0,
            xd > 0,
    ;
    crate::arith::lemma_integer_canonical(1);
    lemma_canonical_unique(rn, rd, 1, 1);
}

/// A fraction minus itself is zero.
pub proof fn lemma_sub_self(x: &Number, r: &Number)
    requires
        x.wf(),
        is_difference(r, x, x),
    ensures
        r.num() == 0,
        r.den() == 1,
{
    let (xn, xd, rn, rd) = (x.num(), x.den(), r.num(), r.den());
    assert(rn == 0) by (nonlinear_arith)
        requires
            rn * (xd * xd) == (xn * xd - xn * xd) * rd,
            xd > 0,
    ;
    crate::arith::lemma_zero_canonical();
    lemma_canonical_unique(rn, rd, 0, 1);
}

} // verus!
