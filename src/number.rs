use crate::arith::{
    canonical, divides, lemma_divided_by_gcd_coprime, lemma_divides_neg, lemma_exact_quotient,
    lemma_integer_canonical, lemma_zero_canonical,
};
use crate::bigint::{decimal, sign_of, BigInt, Sign};
use crate::error::NumberError;
use vstd::prelude::*;
use vstd::string::StringExecFns;

verus! {

/// An exact rational number: a numerator over a positive denominator, in
/// lowest terms.
#[derive(Debug)]
pub struct Number {
    numerator: BigInt,
    denominator: BigInt,
}

impl Number {
    /// The numerator's value.
    pub closed spec fn num(&self) -> int {
        self.numerator@
    }

    /// The denominator's value.
    pub closed spec fn den(&self) -> int {
        self.denominator@
    }

    /// The fraction's value is that of `n / d`.
    pub open spec fn has_value(&self, n: int, d: int) -> bool {
        self.num() * d == n * self.den()
    }

    /// Every fraction is held in canonical form.
    #[verifier::type_invariant]
    pub open spec fn wf(&self) -> bool {
        canonical(self.num(), self.den())
    }

    /// Builds the fraction `numerator / denominator` in lowest terms, with the
    /// sign carried by the numerator. Fails on a zero denominator.
    pub fn new(numerator: BigInt, denominator: BigInt) -> (r: Result<Number, NumberError>)
        ensures
            match r {
                Ok(x) => {
                    &&& denominator@ != 0
                    &&& x.wf()
                    &&& x.num() * denominator@ == numerator@ * x.den()
                },
                Err(e) => denominator@ == 0 && e == NumberError::ZeroDenominator,
            },
    {
        if denominator.is_zero() {
            return Err(NumberError::ZeroDenominator);
        }
        if numerator.is_zero() {
            let z = Number::zero();
            proof {
                use_type_invariant(&z);
            }
            return Ok(z);
        }
        let ghost n = numerator@;
        let ghost d = denominator@;
        let gcd = numerator.gcd(&denominator);
        proof {
            if gcd@ == 0 {
                let k = choose|k: int| n == #[trigger] (0 * k);
                assert(n == 0);
            }
        }
        let mut numerator = numerator;
        let mut denominator = denominator;
        if !gcd.is_one() {
            numerator = numerator.div_trunc(&gcd);
            denominator = denominator.div_trunc(&gcd);
            proof {
                lemma_exact_quotient(n, gcd@);
                lemma_exact_quotient(d, gcd@);
            }
        }
        let ghost n1 = numerator@;
        let ghost d1 = denominator@;
        proof {
            lemma_divided_by_gcd_coprime(n, d, gcd@, n1, d1);
        }
        if denominator.sign() == Sign::Minus {
            numerator = numerator.neg();
            denominator = denominator.neg();
            proof {
                assert forall|c: int|
                    c > 0 && #[trigger] divides(c, numerator@) && #[trigger] divides(
                        c,
                        denominator@,
                    ) implies c == 1 by {
                    lemma_divides_neg(c, numerator@);
                    lemma_divides_neg(c, denominator@);
                }
            }
        }
        proof {
            let g = gcd@;
            assert(numerator@ * d == n * denominator@) by (nonlinear_arith)
                requires
                    n1 * g == n,
                    d1 * g == d,
                    (numerator@ == n1 && denominator@ == d1) || (numerator@ == -n1
                        && denominator@ == -d1),
            ;
            if d1 == 0 {
                assert(d1 * g == 0);
            }
        }
        let r = Number::new_unsafe(numerator, denominator);
        proof {
            use_type_invariant(&r);
        }
        Ok(r)
    }

    /// Builds `a / 1`, which is already canonical.
    pub fn new_int(a: BigInt) -> (r: Number)
        ensures
            r.wf(),
            r.num() == a@,
            r.den() == 1,
    {
        proof {
            lemma_integer_canonical(a@);
        }
        Number { numerator: a, denominator: BigInt::one() }
    }

    /// Wraps two parts that already form a canonical fraction, without
    /// checking or reducing them.
    pub(crate) fn new_unsafe(a: BigInt, b: BigInt) -> (r: Number)
        requires
            canonical(a@, b@),
        ensures
            r.num() == a@,
            r.den() == b@,
    {
        Number { numerator: a, denominator: b }
    }

    /// The integer zero, `0 / 1`.
    pub fn zero() -> (r: Number)
        ensures
            r.wf(),
            r.num() == 0,
            r.den() == 1,
    {
        proof {
            lemma_zero_canonical();
        }
        Number { numerator: BigInt::zero(), denominator: BigInt::one() }
    }

    /// The integer one, `1 / 1`.
    pub fn one() -> (r: Number)
        ensures
            r.wf(),
            r.num() == 1,
            r.den() == 1,
    {
        proof {
            lemma_integer_canonical(1);
        }
        Number { numerator: BigInt::one(), denominator: BigInt::one() }
    }

    /// The numerator, which carries the sign.
    pub fn numerator(&self) -> (r: &BigInt)
        ensures
            r@ == self.num(),
    {
        &self.numerator
    }

    /// The denominator, always positive.
    pub fn denominator(&self) -> (r: &BigInt)
        ensures
            r@ == self.den(),
            r@ > 0,
    {
        proof {
            use_type_invariant(self);
        }
        &self.denominator
    }

    /// The sign class, which is that of the numerator.
    pub fn sign(&self) -> (r: Sign)
        ensures
            r == sign_of(self.num()),
    {
        self.numerator.sign()
    }

    /// Whether the fraction is an integer, that is its denominator is one.
    pub fn is_int(&self) -> (r: bool)
        ensures
            r == (self.den() == 1),
    {
        self.denominator.is_one()
    }

    /// Whether the fraction is zero.
    pub fn is_zero(&self) -> (r: bool)
        ensures
            r == (self.num() == 0),
    {
        self.numerator.is_zero()
    }

    /// The canonical text: `n` for an integer, `n/d` otherwise.
    pub fn to_string(&self) -> (r: String)
        ensures
            r@ == if self.den() == 1 {
                decimal(self.num())
            } else {
                decimal(self.num()) + seq!['/'] + decimal(self.den())
            },
    {
        let mut text = self.numerator.to_string();
        if !self.denominator.is_one() {
            let slash = "/";
            proof {
                reveal_strlit("/");
            }
            text.append(slash);
            let d = self.denominator.to_string();
            text.append(d.as_str());
        }
        text
    }
}

impl Clone for Number {
    fn clone(&self) -> (r: Self)
        ensures
            r.num() == self.num(),
            r.den() == self.den(),
    {
        proof {
            use_type_invariant(self);
        }
        Number { numerator: self.numerator.clone(), denominator: self.denominator.clone() }
    }
}

impl From<i8> for Number {
    fn from(value: i8) -> (r: Number)
        ensures
            r.wf(),
            r.num() == value as int,
            r.den() == 1,
    {
        Number::new_int(BigInt::from_i128(value as i128))
    }
}

impl vstd::std_specs::convert::FromSpecImpl<i8> for Number {
    open spec fn obeys_from_spec() -> bool {
        false
    }

    open spec fn from_spec(v: i8) -> Number {
        vstd::pervasive::arbitrary()
    }
}

impl From<i16> for Number {
    fn from(value: i16) -> (r: Number)
        ensures
            r.wf(),
            r.num() == value as int,
            r.den() == 1,
    {
        Number::new_int(BigInt::from_i128(value as i128))
    }
}

impl vstd::std_specs::convert::FromSpecImpl<i16> for Number {
    open spec fn obeys_from_spec() -> bool {
        false
    }

    open spec fn from_spec(v: i16) -> Number {
        vstd::pervasive::arbitrary()
    }
}

impl From<i32> for Number {
    fn from(value: i32) -> (r: Number)
        ensures
            r.wf(),
            r.num() == value as int,
            r.den() == 1,
    {
        Number::new_int(BigInt::from_i128(value as i128))
    }
}

impl vstd::std_specs::convert::FromSpecImpl<i32> for Number {
    open spec fn obeys_from_spec() -> bool {
        false
    }

    open spec fn from_spec(v: i32) -> Number {
        vstd::pervasive::arbitrary()
    }
}

impl From<i64> for Number {
    fn from(value: i64) -> (r: Number)
        ensures
            r.wf(),
            r.num() == value as int,
            r.den() == 1,
    {
        Number::new_int(BigInt::from_i128(value as i128))
    }
}

impl vstd::std_specs::convert::FromSpecImpl<i64> for Number {
    open spec fn obeys_from_spec() -> bool {
        false
    }

    open spec fn from_spec(v: i64) -> Number {
        vstd::pervasive::arbitrary()
    }
}

impl From<i128> for Number {
    fn from(value: i128) -> (r: Number)
        ensures
            r.wf(),
            r.num() == value as int,
            r.den() == 1,
    {
        Number::new_int(BigInt::from_i128(value as i128))
    }
}

impl vstd::std_specs::convert::FromSpecImpl<i128> for Number {
    open spec fn obeys_from_spec() -> bool {
        false
    }

    open spec fn from_spec(v: i128) -> Number {
        vstd::pervasive::arbitrary()
    }
}

impl From<isize> for Number {
    fn from(value: isize) -> (r: Number)
        ensures
            r.wf(),
            r.num() == value as int,
            r.den() == 1,
    {
        Number::new_int(BigInt::from_i128(value as i128))
    }
}

impl vstd::std_specs::convert::FromSpecImpl<isize> for Number {
    open spec fn obeys_from_spec() -> bool {
        false
    }

    open spec fn from_spec(v: isize) -> Number {
        vstd::pervasive::arbitrary()
    }
}

impl From<u8> for Number {
    fn from(value: u8) -> (r: Number)
        ensures
            r.wf(),
            r.num() == value as int,
            r.den() == 1,
    {
        Number::new_int(BigInt::from_u128(value as u128))
    }
}

impl vstd::std_specs::convert::FromSpecImpl<u8> for Number {
    open spec fn obeys_from_spec() -> bool {
        false
    }

    open spec fn from_spec(v: u8) -> Number {
        vstd::pervasive::arbitrary()
    }
}

impl From<u16> for Number {
    fn from(value: u16) -> (r: Number)
        ensures
            r.wf(),
            r.num() == value as int,
            r.den() == 1,
    {
        Number::new_int(BigInt::from_u128(value as u128))
    }
}

impl vstd::std_specs::convert::FromSpecImpl<u16> for Number {
    open spec fn obeys_from_spec() -> bool {
        false
    }

    open spec fn from_spec(v: u16) -> Number {
        vstd::pervasive::arbitrary()
    }
}

impl From<u32> for Number {
    fn from(value: u32) -> (r: Number)
        ensures
            r.wf(),
            r.num() == value as int,
            r.den() == 1,
    {
        Number::new_int(BigInt::from_u128(value as u128))
    }
}

impl vstd::std_specs::convert::FromSpecImpl<u32> for Number {
    open spec fn obeys_from_spec() -> bool {
        false
    }

    open spec fn from_spec(v: u32) -> Number {
        vstd::pervasive::arbitrary()
    }
}

impl From<u64> for Number {
    fn from(value: u64) -> (r: Number)
        ensures
            r.wf(),
            r.num() == value as int,
            r.den() == 1,
    {
        Number::new_int(BigInt::from_u128(value as u128))
    }
}

impl vstd::std_specs::convert::FromSpecImpl<u64> for Number {
    open spec fn obeys_from_spec() -> bool {
        false
    }

    open spec fn from_spec(v: u64) -> Number {
        vstd::pervasive::arbitrary()
    }
}

impl From<u128> for Number {
    fn from(value: u128) -> (r: Number)
        ensures
            r.wf(),
            r.num() == value as int,
            r.den() == 1,
    {
        Number::new_int(BigInt::from_u128(value as u128))
    }
}

impl vstd::std_specs::convert::FromSpecImpl<u128> for Number {
    open spec fn obeys_from_spec() -> bool {
        false
    }

    open spec fn from_spec(v: u128) -> Number {
        vstd::pervasive::arbitrary()
    }
}

impl From<usize> for Number {
    fn from(value: usize) -> (r: Number)
        ensures
            r.wf(),
            r.num() == value as int,
            r.den() == 1,
    {
        Number::new_int(BigInt::from_u128(value as u128))
    }
}

impl vstd::std_specs::convert::FromSpecImpl<usize> for Number {
    open spec fn obeys_from_spec() -> bool {
        false
    }

    open spec fn from_spec(v: usize) -> Number {
        vstd::pervasive::arbitrary()
    }
}

} // verus!
