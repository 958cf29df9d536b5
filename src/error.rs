use vstd::prelude::*;

verus! {

/// Why a fraction could not be produced.
#[derive(Clone, Copy, Debug, PartialEq, Eq, Structural)]
pub enum NumberError {
    /// A fraction was requested with a zero denominator.
    ZeroDenominator,
    /// The divisor of a quotient is zero.
    DivisionByZero,
}

} // verus!
