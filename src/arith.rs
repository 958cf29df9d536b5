use std::cmp::Ordering;
use vstd::arithmetic::div_mod::{lemma_div_multiples_vanish, lemma_fundamental_div_mod};
use vstd::prelude::*;

verus! {

/// `d` divides `n`: some integer multiple of `d` is `n`.
pub open spec fn divides(d: int, n: int) -> bool {
    exists|k: int| n == #[trigger] (d * k)
}

/// Absolute value.
pub open spec fn abs(v: int) -> int {
    if v < 0 {
        -v
    } else {
        v
    }
}

/// Quotient rounded toward zero; `b` must be non-zero.
pub open spec fn trunc_div(a: int, b: int) -> int {
    if (a < 0) == (b < 0) {
        abs(a) / abs(b)
    } else {
        -(abs(a) / abs(b))
    }
}

/// Three-way comparison of two mathematical integers.
pub open spec fn int_cmp(a: int, b: int) -> Ordering {
    if a < b {
        Ordering::Less
    } else if a == b {
        Ordering::Equal
    } else {
        Ordering::Greater
    }
}

/// `n / d` is in lowest terms with a positive denominator: no integer
/// greater than one divides both parts. Zero is thus only `0 / 1`.
pub open spec fn canonical(n: int, d: int) -> bool {
    &&& d > 0
    &&& forall|c: int| c > 0 && #[trigger] divides(c, n) && #[trigger] divides(c, d) ==> c == 1
}

/// A divisor of `n` also divides `-n`.
pub proof fn lemma_divides_neg(c: int, n: int)
    requires
        divides(c, n),
    ensures
        divides(c, -n),
{
    let k = choose|k: int| n == #[trigger] (c * k);
    assert(-n == c * (-k)) by (nonlinear_arith)
        requires
            n == c * k,
    ;
}

/// Scaling a divisibility by `g`.
pub proof fn lemma_divides_scale(c: int, g: int, m: int)
    requires
        divides(c, m),
    ensures
        divides(c * g, m * g),
{
    let k = choose|k: int| m == #[trigger] (c * k);
    assert(m * g == (c * g) * k) by (nonlinear_arith)
        requires
            m == c * k,
    ;
}

/// A positive divisor of a positive integer is no larger than it.
pub proof fn lemma_divisor_le(c: int, n: int)
    requires
        c > 0,
        n > 0,
        divides(c, n),
    ensures
        c <= n,
{
    let k = choose|k: int| n == #[trigger] (c * k);
    assert(c <= n) by (nonlinear_arith)
        requires
            n == c * k,
            c > 0,
            n > 0,
    ;
}

/// Division by an exact divisor undoes the multiplication.
pub proof fn lemma_exact_quotient(n: int, g: int)
    requires
        g > 0,
        divides(g, n),
    ensures
        trunc_div(n, g) * g == n,
{
    let k = choose|k: int| n == #[trigger] (g * k);
    if n >= 0 {
        assert(k >= 0) by (nonlinear_arith)
            requires
                n == g * k,
                g > 0,
                n >= 0,
        ;
        lemma_div_multiples_vanish(k, g);
    } else {
        assert(-n == g * (-k)) by (nonlinear_arith)
            requires
                n == g * k,
        ;
        lemma_div_multiples_vanish(-k, g);
    }
    assert(trunc_div(n, g) == k);
    assert(k * g == n) by (nonlinear_arith)
        requires
            n == g * k,
    ;
}

/// Dividing both parts by their greatest common divisor leaves them with no
/// common divisor greater than one.
pub proof fn lemma_divided_by_gcd_coprime(n: int, d: int, g: int, n1: int, d1: int)
    requires
        g > 0,
        n1 * g == n,
        d1 * g == d,
        forall|c: int| c > 0 && #[trigger] divides(c, n) && #[trigger] divides(c, d) ==> c <= g,
    ensures
        forall|c: int| c > 0 && #[trigger] divides(c, n1) && #[trigger] divides(c, d1) ==> c == 1,
{
    assert forall|c: int| c > 0 && #[trigger] divides(c, n1) && #[trigger] divides(c, d1) implies c == 1 by {
        lemma_divides_scale(c, g, n1);
        lemma_divides_scale(c, g, d1);
        assert(c * g > 0) by (nonlinear_arith)
            requires
                c > 0,
                g > 0,
        ;
        assert(c * g <= g);
        assert(c <= 1) by (nonlinear_arith)
            requires
                c * g <= g,
                g > 0,
        ;
    }
}

/// Zero over one is canonical.
pub proof fn lemma_zero_canonical()
    ensures
        canonical(0, 1),
{
    assert forall|c: int| c > 0 && #[trigger] divides(c, 0) && #[trigger] divides(c, 1) implies c == 1 by {
        lemma_divisor_le(c, 1);
    }
}

/// An integer over one is canonical.
pub proof fn lemma_integer_canonical(n: int)
    ensures
        canonical(n, 1),
{
    assert forall|c: int| c > 0 && #[trigger] divides(c, n) && #[trigger] divides(c, 1) implies c == 1 by {
        lemma_divisor_le(c, 1);
    }
}

/// Euclid's greatest common divisor of two naturals.
pub open spec fn gcd(a: nat, b: nat) -> nat
    decreases b,
{
    if b == 0 {
        a
    } else {
        gcd(b, a % b)
    }
}

/// Euclid's divisor divides both of its arguments.
pub proof fn lemma_gcd_divides(a: nat, b: nat)
    ensures
        divides(gcd(a, b) as int, a as int),
        divides(gcd(a, b) as int, b as int),
    decreases b,
{
    let g = gcd(a, b) as int;
    if b == 0 {
        assert(a as int == g * 1);
        assert(b as int == g * 0);
    } else {
        lemma_gcd_divides(b, a % b);
        let k1 = choose|k: int| b as int == #[trigger] (g * k);
        let k2 = choose|k: int| (a % b) as int == #[trigger] (g * k);
        lemma_fundamental_div_mod(a as int, b as int);
        let q = a as int / b as int;
        assert(a as int == g * (k1 * q + k2)) by (nonlinear_arith)
            requires
                a as int == b as int * q + (a % b) as int,
                b as int == g * k1,
                (a % b) as int == g * k2,
        ;
    }
}

/// Bezout's identity: Euclid's divisor is an integer combination of the
/// arguments.
pub proof fn lemma_bezout(a: nat, b: nat) -> (r: (int, int))
    ensures
        a * r.0 + b * r.1 == gcd(a, b),
    decreases b,
{
    if b == 0 {
        (1, 0)
    } else {
        let (x, y) = lemma_bezout(b, a % b);
        lemma_fundamental_div_mod(a as int, b as int);
        let q = a as int / b as int;
        assert(a * y + b * (x - q * y) == b * x + (a % b) * y) by (nonlinear_arith)
            requires
                a as int == b as int * q + (a % b) as int,
        ;
        (y, x - q * y)
    }
}

/// Euclid's lemma: a denominator that divides `n * m`, where `n` shares no
/// factor with it, divides `m`.
pub proof fn lemma_euclid(n: int, d: int, m: int)
    requires
        canonical(n, d),
        divides(d, n * m),
    ensures
        divides(d, m),
{
    let an = abs(n) as nat;
    let g = gcd(an, d as nat);
    lemma_gcd_divides(an, d as nat);
    if n < 0 {
        lemma_divides_neg(g as int, an as int);
    }
    assert(divides(g as int, n));
    if g == 0 {
        let k = choose|k: int| d == #[trigger] (0 * k);
        assert(d == 0);
    }
    assert(g == 1);
    let (x, y) = lemma_bezout(an, d as nat);
    let k = choose|k: int| n * m == #[trigger] (d * k);
    let s: int = if n < 0 { -1 } else { 1 };
    assert(m == d * (s * k * x + m * y)) by (nonlinear_arith)
        requires
            an * x + d * y == 1,
            n * m == d * k,
            an == s * n,
            s * s == 1,
    ;
}

/// A value has exactly one canonical fraction.
pub proof fn lemma_canonical_unique(an: int, ad: int, bn: int, bd: int)
    requires
        canonical(an, ad),
        canonical(bn, bd),
        an * bd == bn * ad,
    ensures
        an == bn,
        ad == bd,
{
    assert(an * bd == ad * bn) by (nonlinear_arith)
        requires
            an * bd == bn * ad,
    ;
    assert(divides(ad, an * bd));
    lemma_euclid(an, ad, bd);
    assert(bn * ad == bd * an) by (nonlinear_arith)
        requires
            an * bd == bn * ad,
    ;
    assert(divides(bd, bn * ad));
    lemma_euclid(bn, bd, ad);
    lemma_divisor_le(ad, bd);
    lemma_divisor_le(bd, ad);
    assert(an == bn) by (nonlinear_arith)
        requires
            an * bd == bn * ad,
            ad == bd,
            ad > 0,
    ;
}

} // verus!
