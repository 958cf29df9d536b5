use crate::error::NumberError;
use crate::number::Number;
use vstd::prelude::*;

verus! {

/// `r` is the canonical fraction of `a + b`.
pub open spec fn is_sum(r: &Number, a: &Number, b: &Number) -> bool {
    r.wf() && r.has_value(a.num() * b.den() + b.num() * a.den(), a.den() * b.den())
}

/// `r` is the canonical fraction of `a - b`.
pub open spec fn is_difference(r: &Number, a: &Number, b: &Number) -> bool {
    r.wf() && r.has_value(a.num() * b.den() - b.num() * a.den(), a.den() * b.den())
}

/// `r` is the canonical fraction of `a * b`.
pub open spec fn is_product(r: &Number, a: &Number, b: &Number) -> bool {
    r.wf() && r.has_value(a.num() * b.num(), a.den() * b.den())
}

/// `r` is the canonical fraction of `a / b`, for a non-zero `b`.
pub open spec fn is_quotient(r: &Number, a: &Number, b: &Number) -> bool {
    r.wf() && r.has_value(a.num() * b.den(), a.den() * b.num())
}

/// The sum `a + b`, in canonical form. It never fails.
pub fn add(a: &Number, b: &Number) -> (r: Result<Number, NumberError>)
    ensures
        match r {
            Ok(x) => is_sum(&x, a, b),
            Err(_) => false,
        },
{
    proof {
        use_type_invariant(a);
        use_type_invariant(b);
    }
    let ghost (an, ad, bn, bd) = (a.num(), a.den(), b.num(), b.den());
    let (numerator, denominator);
    if a.denominator() == b.denominator() {
        numerator = a.numerator().add(b.numerator());
        denominator = a.denominator().clone();
    } else {
        numerator = a.numerator().mul(b.denominator()).add(&b.numerator().mul(a.denominator()));
        denominator = a.denominator().mul(b.denominator());
    }
    let ghost (n, d) = (numerator@, denominator@);
    assert(ad * bd > 0) by (nonlinear_arith)
        requires
            ad > 0,
            bd > 0,
    ;
    let r = Number::new(numerator, denominator);
    proof {
        let x = r->Ok_0;
        let (xn, xd) = (x.num(), x.den());
        assert(xn * (ad * bd) == (an * bd + bn * ad) * xd) by (nonlinear_arith)
            requires
                xn * d == n * xd,
                (ad == bd && n == an + bn && d == ad) || (n == an * bd + bn * ad && d == ad * bd),
        ;
    }
    r
}

/// The difference `a - b`, in canonical form. It never fails.
pub fn sub(a: &Number, b: &Number) -> (r: Result<Number, NumberError>)
    ensures
        match r {
            Ok(x) => is_difference(&x, a, b),
            Err(_) => false,
        },
{
    proof {
        use_type_invariant(a);
        use_type_invariant(b);
    }
    let ghost (an, ad, bn, bd) = (a.num(), a.den(), b.num(), b.den());
    let (numerator, denominator);
    if a.denominator() == b.denominator() {
        numerator = a.numerator().sub(b.numerator());
        denominator = a.denominator().clone();
    } else {
        numerator = a.numerator().mul(b.denominator()).sub(&b.numerator().mul(a.denominator()));
        denominator = a.denominator().mul(b.denominator());
    }
    let ghost (n, d) = (numerator@, denominator@);
    assert(ad * bd > 0) by (nonlinear_arith)
        requires
            ad > 0,
            bd > 0,
    ;
    let r = Number::new(numerator, denominator);
    proof {
        let x = r->Ok_0;
        let (xn, xd) = (x.num(), x.den());
        assert(xn * (ad * bd) == (an * bd - bn * ad) * xd) by (nonlinear_arith)
            requires
                xn * d == n * xd,
                (ad == bd && n == an - bn && d == ad) || (n == an * bd - bn * ad && d == ad * bd),
        ;
    }
    r
}

/// The product `a * b`, in canonical form. It never fails.
pub fn mul(a: &Number, b: &Number) -> (r: Result<Number, NumberError>)
    ensures
        match r {
            Ok(x) => is_product(&x, a, b),
            Err(_) => false,
        },
{
    proof {
        use_type_invariant(a);
        use_type_invariant(b);
    }
    let ghost (an, ad, bn, bd) = (a.num(), a.den(), b.num(), b.den());
    if a.is_int() && b.is_int() {
        let result = a.numerator().mul(b.numerator());
        return Ok(Number::new_int(result));
    }
    let numerator = a.numerator().mul(b.numerator());
    let denominator = a.denominator().mul(b.denominator());
    assert(ad * bd > 0) by (nonlinear_arith)
        requires
            ad > 0,
            bd > 0,
    ;
    Number::new(numerator, denominator)
}

/// The quotient `a / b`, in canonical form. Fails with `DivisionByZero`
/// exactly when `b` is zero.
pub fn div(a: &Number, b: &Number) -> (r: Result<Number, NumberError>)
    ensures
        match r {
            Ok(x) => b.num() != 0 && is_quotient(&x, a, b),
            Err(e) => b.num() == 0 && e == NumberError::DivisionByZero,
        },
{
    proof {
        use_type_invariant(a);
        use_type_invariant(b);
    }
    let ghost (an, ad, bn, bd) = (a.num(), a.den(), b.num(), b.den());
    if b.is_zero() {
        return Err(NumberError::DivisionByZero);
    }
    let (numerator, denominator);
    if a.is_int() && b.is_int() {
        numerator = a.numerator().clone();
        denominator = b.numerator().clone();
    } else {
        numerator = a.numerator().mul(b.denominator());
        denominator = a.denominator().mul(b.numerator());
    }
    let ghost (n, d) = (numerator@, denominator@);
    assert(ad * bn != 0) by (nonlinear_arith)
        requires
            ad > 0,
            bn != 0,
    ;
    let r = Number::new(numerator, denominator);
    proof {
        let x = r->Ok_0;
        let (xn, xd) = (x.num(), x.den());
        assert(xn * (ad * bn) == (an * bd) * xd) by (nonlinear_arith)
            requires
                xn * d == n * xd,
                (ad == 1 && bd == 1 && n == an && d == bn) || (n == an * bd && d == ad * bn),
        ;
    }
    r
}

impl std::ops::Add for Number {
    type Output = Result<Number, NumberError>;

    fn add(self, other: Number) -> (r: Result<Number, NumberError>)
        ensures
            match r {
                Ok(x) => is_sum(&x, &self, &other),
                Err(_) => false,
            },
    {
        crate::ops::add(&self, &other)
    }
}

impl vstd::std_specs::ops::AddSpecImpl for Number {
    open spec fn obeys_add_spec() -> bool {
        false
    }

    open spec fn add_req(self, other: Number) -> bool {
        true
    }

    open spec fn add_spec(self, other: Number) -> Result<Number, NumberError> {
        vstd::pervasive::arbitrary()
    }
}

impl std::ops::Sub for Number {
    type Output = Result<Number, NumberError>;

    fn sub(self, other: Number) -> (r: Result<Number, NumberError>)
        ensures
            match r {
                Ok(x) => is_difference(&x, &self, &other),
                Err(_) => false,
            },
    {
        crate::ops::sub(&self, &other)
    }
}

impl vstd::std_specs::ops::SubSpecImpl for Number {
    open spec fn obeys_sub_spec() -> bool {
        false
    }

    open spec fn sub_req(self, other: Number) -> bool {
        true
    }

    open spec fn sub_spec(self, other: Number) -> Result<Number, NumberError> {
        vstd::pervasive::arbitrary()
    }
}

impl std::ops::Mul for Number {
    type Output = Result<Number, NumberError>;

    fn mul(self, other: Number) -> (r: Result<Number, NumberError>)
        ensures
            match r {
                Ok(x) => is_product(&x, &self, &other),
                Err(_) => false,
            },
    {
        crate::ops::mul(&self, &other)
    }
}

impl vstd::std_specs::ops::MulSpecImpl for Number {
    open spec fn obeys_mul_spec() -> bool {
        false
    }

    open spec fn mul_req(self, other: Number) -> bool {
        true
    }

    open spec fn mul_spec(self, other: Number) -> Result<Number, NumberError> {
        vstd::pervasive::arbitrary()
    }
}

impl std::ops::Div for Number {
    type Output = Result<Number, NumberError>;

    fn div(self, other: Number) -> (r: Result<Number, NumberError>)
        ensures
            match r {
                Ok(x) => other.num() != 0 && is_quotient(&x, &self, &other),
                Err(e) => other.num() == 0 && e == NumberError::DivisionByZero,
            },
    {
        crate::ops::div(&self, &other)
    }
}

impl vstd::std_specs::ops::DivSpecImpl for Number {
    open spec fn obeys_div_spec() -> bool {
        false
    }

    open spec fn div_req(self, other: Number) -> bool {
        true
    }

    open spec fn div_spec(self, other: Number) -> Result<Number, NumberError> {
        vstd::pervasive::arbitrary()
    }
}

} // verus!
