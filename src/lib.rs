// Exact rational arithmetic over arbitrary-precision integers.
//
// `number` holds the fraction type in lowest terms, `compare` its order,
// `ops` the four operations, and `laws` the properties they obey together.
// `bigint` is the integer type the fractions are made of, and `arith` the
// divisibility facts that the proofs rest on.
pub mod arith;
pub mod bigint;
pub mod compare;
pub mod error;
pub mod laws;
pub mod number;
pub mod ops;
