use num_bigint::BigInt as NumBigInt;
use num_bigint::Sign::{Minus, NoSign, Plus};
use num_integer::Integer;
use num_traits::{One, Zero};
use std::cmp::Ordering;
use crate::arith::{divides, int_cmp, trunc_div};
use vstd::prelude::*;

verus! {

/// Radix of the digit representation of a magnitude.
pub open spec fn radix() -> int {
    0x1_0000_0000
}

/// Value of a magnitude given as base-2^32 digits, least significant first.
pub open spec fn digits_value(d: Seq<u32>) -> nat
    decreases d.len(),
{
    if d.len() == 0 {
        0
    } else {
        (d[0] + radix() * digits_value(d.drop_first())) as nat
    }
}

/// The character of a decimal digit.
pub open spec fn digit_char(d: int) -> char {
    if d == 0 {
        '0'
    } else if d == 1 {
        '1'
    } else if d == 2 {
        '2'
    } else if d == 3 {
        '3'
    } else if d == 4 {
        '4'
    } else if d == 5 {
        '5'
    } else if d == 6 {
        '6'
    } else if d == 7 {
        '7'
    } else if d == 8 {
        '8'
    } else {
        '9'
    }
}

/// Decimal digits of a natural number, most significant first, without
/// leading zeros.
pub open spec fn decimal_nat(n: nat) -> Seq<char>
    decreases n,
{
    if n < 10 {
        seq![digit_char(n as int)]
    } else {
        decimal_nat(n / 10).push(digit_char((n % 10) as int))
    }
}

/// Decimal text of an integer, with a leading `-` when it is negative.
pub open spec fn decimal(v: int) -> Seq<char> {
    if v < 0 {
        seq!['-'] + decimal_nat((-v) as nat)
    } else {
        decimal_nat(v as nat)
    }
}

/// Sign of an integer: negative, zero or positive.
#[derive(Clone, Copy, Debug, PartialEq, Eq, Structural)]
pub enum Sign {
    Minus,
    NoSign,
    Plus,
}

/// The sign class of a mathematical integer.
pub open spec fn sign_of(v: int) -> Sign {
    if v < 0 {
        Sign::Minus
    } else if v == 0 {
        Sign::NoSign
    } else {
        Sign::Plus
    }
}

/// An arbitrary-precision signed integer: a sign flag and a magnitude in
/// base-2^32 digits, least significant first.
#[derive(Debug)]
pub struct BigInt {
    negative: bool,
    magnitude: Vec<u32>,
}

impl View for BigInt {
    type V = int;

    closed spec fn view(&self) -> int {
        if self.negative {
            -digits_value(self.magnitude@)
        } else {
            digits_value(self.magnitude@) as int
        }
    }
}

impl Clone for BigInt {
    fn clone(&self) -> (r: Self)
        ensures
            r@ == self@,
    {
        BigInt { negative: self.negative, magnitude: self.magnitude.clone() }
    }
}

impl BigInt {
    /// The integer zero.
    pub(crate) fn zero() -> (r: BigInt)
        ensures
            r@ == 0,
    {
        BigInt { negative: false, magnitude: Vec::new() }
    }

    /// The integer one.
    pub(crate) fn one() -> (r: BigInt)
        ensures
            r@ == 1,
    {
        let r = BigInt { negative: false, magnitude: vec![1u32] };
        assert(r.magnitude@.drop_first().len() == 0);
        assert(digits_value(r.magnitude@.drop_first()) == 0);
        r
    }

    /// The additive inverse.
    pub(crate) fn neg(self) -> (r: BigInt)
        ensures
            r@ == -self@,
    {
        BigInt { negative: !self.negative, magnitude: self.magnitude }
    }

    /// Relies on `From<i64>` of `num_bigint::BigInt`: the same value.
    #[verifier::external_body]
    pub(crate) fn from_i64(v: i64) -> (r: BigInt)
        ensures
            r@ == v as int,
    {
        let (s, m) = NumBigInt::from(v).to_u32_digits();
        BigInt { negative: s == Minus, magnitude: m }
    }

    /// Relies on `From<u64>` of `num_bigint::BigInt`: the same value.
    #[verifier::external_body]
    pub(crate) fn from_u64(v: u64) -> (r: BigInt)
        ensures
            r@ == v as int,
    {
        let (s, m) = NumBigInt::from(v).to_u32_digits();
        BigInt { negative: s == Minus, magnitude: m }
    }

    /// Relies on `From<i128>` of `num_bigint::BigInt`: the same value.
    #[verifier::external_body]
    pub(crate) fn from_i128(v: i128) -> (r: BigInt)
        ensures
            r@ == v as int,
    {
        let (s, m) = NumBigInt::from(v).to_u32_digits();
        BigInt { negative: s == Minus, magnitude: m }
    }

    /// Relies on `From<u128>` of `num_bigint::BigInt`: the same value.
    #[verifier::external_body]
    pub(crate) fn from_u128(v: u128) -> (r: BigInt)
        ensures
            r@ == v as int,
    {
        let (s, m) = NumBigInt::from(v).to_u32_digits();
        BigInt { negative: s == Minus, magnitude: m }
    }

    /// Relies on `Sub` of `num_bigint::BigInt`: the exact difference.
    #[verifier::external_body]
    pub(crate) fn sub(&self, other: &BigInt) -> (r: BigInt)
        ensures
            r@ == self@ - other@,
    {
        let x = NumBigInt::from_slice(if self.negative { Minus } else { Plus }, &self.magnitude);
        let y = NumBigInt::from_slice(if other.negative { Minus } else { Plus }, &other.magnitude);
        let (s, m) = (x - y).to_u32_digits();
        BigInt { negative: s == Minus, magnitude: m }
    }

    /// Relies on `Mul` of `num_bigint::BigInt`: the exact product.
    #[verifier::external_body]
    pub(crate) fn mul(&self, other: &BigInt) -> (r: BigInt)
        ensures
            r@ == self@ * other@,
    {
        let x = NumBigInt::from_slice(if self.negative { Minus } else { Plus }, &self.magnitude);
        let y = NumBigInt::from_slice(if other.negative { Minus } else { Plus }, &other.magnitude);
        let (s, m) = (x * y).to_u32_digits();
        BigInt { negative: s == Minus, magnitude: m }
    }

    /// Relies on `Div` of `num_bigint::BigInt`: the quotient rounded toward
    /// zero. It panics on a zero divisor, which is ruled out here.
    #[verifier::external_body]
    pub(crate) fn div_trunc(&self, other: &BigInt) -> (r: BigInt)
        requires
            other@ != 0,
        ensures
            r@ == trunc_div(self@, other@),
    {
        let x = NumBigInt::from_slice(if self.negative { Minus } else { Plus }, &self.magnitude);
        let y = NumBigInt::from_slice(if other.negative { Minus } else { Plus }, &other.magnitude);
        let (s, m) = (x / y).to_u32_digits();
        BigInt { negative: s == Minus, magnitude: m }
    }

    /// Relies on `Integer::gcd` of `num_bigint::BigInt`: the greatest common
    /// divisor, never negative, and zero only when both inputs are zero.
    #[verifier::external_body]
    pub(crate) fn gcd(&self, other: &BigInt) -> (r: BigInt)
        ensures
            r@ >= 0,
            divides(r@, self@),
            divides(r@, other@),
            self@ != 0 || other@ != 0 ==> forall|c: int|
                c > 0 && #[trigger] divides(c, self@) && #[trigger] divides(c, other@) ==> c <= r@,
    {
        let x = NumBigInt::from_slice(if self.negative { Minus } else { Plus }, &self.magnitude);
        let y = NumBigInt::from_slice(if other.negative { Minus } else { Plus }, &other.magnitude);
        let (s, m) = x.gcd(&y).to_u32_digits();
        BigInt { negative: s == Minus, magnitude: m }
    }

    /// Relies on `PartialEq` of `num_bigint::BigInt`: equality of values.
    #[verifier::external_body]
    pub(crate) fn equals(&self, other: &BigInt) -> (r: bool)
        ensures
            r == (self@ == other@),
    {
        let x = NumBigInt::from_slice(if self.negative { Minus } else { Plus }, &self.magnitude);
        let y = NumBigInt::from_slice(if other.negative { Minus } else { Plus }, &other.magnitude);
        x == y
    }

    /// Relies on `Ord::cmp` of `num_bigint::BigInt`: the order of values.
    #[verifier::external_body]
    pub(crate) fn compare(&self, other: &BigInt) -> (r: Ordering)
        ensures
            r == int_cmp(self@, other@),
    {
        let x = NumBigInt::from_slice(if self.negative { Minus } else { Plus }, &self.magnitude);
        let y = NumBigInt::from_slice(if other.negative { Minus } else { Plus }, &other.magnitude);
        x.cmp(&y)
    }

    /// Relies on `Zero::is_zero` of `num_bigint::BigInt`.
    #[verifier::external_body]
    pub(crate) fn is_zero(&self) -> (r: bool)
        ensures
            r == (self@ == 0),
    {
        NumBigInt::from_slice(if self.negative { Minus } else { Plus }, &self.magnitude).is_zero()
    }

    /// Relies on `One::is_one` of `num_bigint::BigInt`.
    #[verifier::external_body]
    pub(crate) fn is_one(&self) -> (r: bool)
        ensures
            r == (self@ == 1),
    {
        NumBigInt::from_slice(if self.negative { Minus } else { Plus }, &self.magnitude).is_one()
    }

    /// Relies on `Display` of `num_bigint::BigInt`: decimal digits, with a
    /// leading `-` for a negative value.
    #[verifier::external_body]
    pub(crate) fn to_string(&self) -> (r: String)
        ensures
            r@ == decimal(self@),
    {
        NumBigInt::from_slice(if self.negative { Minus } else { Plus }, &self.magnitude).to_string()
    }

    /// Relies on `Add` of `num_bigint::BigInt`: the exact sum.
    #[verifier::external_body]
    pub(crate) fn add(&self, other: &BigInt) -> (r: BigInt)
        ensures
            r@ == self@ + other@,
    {
        let x = NumBigInt::from_slice(if self.negative { Minus } else { Plus }, &self.magnitude);
        let y = NumBigInt::from_slice(if other.negative { Minus } else { Plus }, &other.magnitude);
        let (s, m) = (x + y).to_u32_digits();
        BigInt { negative: s == Minus, magnitude: m }
    }

    /// Relies on `BigInt::sign` of `num_bigint`: the sign class of the value.
    #[verifier::external_body]
    pub(crate) fn sign(&self) -> (r: Sign)
        ensures
            r == sign_of(self@),
    {
        let x = NumBigInt::from_slice(if self.negative { Minus } else { Plus }, &self.magnitude);
        match x.sign() {
            Minus => Sign::Minus,
            NoSign => Sign::NoSign,
            Plus => Sign::Plus,
        }
    }
}

impl From<i64> for BigInt {
    fn from(v: i64) -> (r: BigInt)
        ensures
            r@ == v as int,
    {
        BigInt::from_i64(v)
    }
}

impl vstd::std_specs::convert::FromSpecImpl<i64> for BigInt {
    open spec fn obeys_from_spec() -> bool {
        false
    }

    open spec fn from_spec(v: i64) -> BigInt {
        vstd::pervasive::arbitrary()
    }
}

impl From<u64> for BigInt {
    fn from(v: u64) -> (r: BigInt)
        ensures
            r@ == v as int,
    {
        BigInt::from_u64(v)
    }
}

impl vstd::std_specs::convert::FromSpecImpl<u64> for BigInt {
    open spec fn obeys_from_spec() -> bool {
        false
    }

    open spec fn from_spec(v: u64) -> BigInt {
        vstd::pervasive::arbitrary()
    }
}

impl From<i128> for BigInt {
    fn from(v: i128) -> (r: BigInt)
        ensures
            r@ == v as int,
    {
        BigInt::from_i128(v)
    }
}

impl vstd::std_specs::convert::FromSpecImpl<i128> for BigInt {
    open spec fn obeys_from_spec() -> bool {
        false
    }

    open spec fn from_spec(v: i128) -> BigInt {
        vstd::pervasive::arbitrary()
    }
}

impl From<u128> for BigInt {
    fn from(v: u128) -> (r: BigInt)
        ensures
            r@ == v as int,
    {
        BigInt::from_u128(v)
    }
}

impl vstd::std_specs::convert::FromSpecImpl<u128> for BigInt {
    open spec fn obeys_from_spec() -> bool {
        false
    }

    open spec fn from_spec(v: u128) -> BigInt {
        vstd::pervasive::arbitrary()
    }
}

impl PartialEq for BigInt {
    fn eq(&self, other: &BigInt) -> (r: bool) {
        self.equals(other)
    }
}

impl vstd::std_specs::cmp::PartialEqSpecImpl for BigInt {
    open spec fn obeys_eq_spec() -> bool {
        true
    }

    open spec fn eq_spec(&self, other: &BigInt) -> bool {
        self@ == other@
    }
}

impl Eq for BigInt {
}

impl PartialOrd for BigInt {
    fn partial_cmp(&self, other: &BigInt) -> (r: Option<Ordering>) {
        Some(self.compare(other))
    }
}

impl vstd::std_specs::cmp::PartialOrdSpecImpl for BigInt {
    open spec fn obeys_partial_cmp_spec() -> bool {
        true
    }

    open spec fn partial_cmp_spec(&self, other: &BigInt) -> Option<Ordering> {
        Some(int_cmp(self@, other@))
    }
}

} // verus!
