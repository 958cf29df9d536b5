use rational::bigint::{BigInt, Sign};
use rational::compare::compare;
use rational::error::NumberError;
use rational::number::Number;
use rational::ops::{add, div, mul, sub};
use std::cmp::Ordering;

fn n(a: i64, b: i64) -> Number {
    Number::new(BigInt::from(a), BigInt::from(b)).unwrap()
}

#[test]
fn test_compare_equal() {
    assert!(n(1, 2) == n(2, 4));
    assert!(n(-3, 6) == n(-1, 2));
    assert!(n(0, 5) == n(0, 1));
}

#[test]
fn test_compare_greater() {
    assert!(n(3, 4) > n(1, 2));
    assert!(n(5, 6) > n(4, 6));
    assert!(n(7, 2) > n(3, 1));
}

#[test]
fn test_compare_less() {
    assert!(n(1, 3) < n(2, 3));
    assert!(n(-1, 2) < n(1, 2));
    assert!(n(-3, 4) < n(-2, 4));
}

#[test]
fn test_compare_mixed_signs() {
    assert!(n(-1, 2) < n(0, 1));
    assert!(n(0, 1) < n(1, 2));
    assert!(n(-3, 5) < n(2, 5));
}

#[test]
fn test_compare_same_numerators_different_denominators() {
    assert!(n(1, 2) < n(1, 1));
    assert!(n(2, 3) > n(2, 4));
    assert!(n(-1, 2) > n(-1, 1));
}

#[test]
fn test_add() {
    assert_eq!(add(&n(1, 2), &n(1, 2)).unwrap(), n(1, 1));
    assert_eq!(add(&n(1, 3), &n(1, 6)).unwrap(), n(1, 2));
    assert_eq!(add(&n(-1, 2), &n(1, 2)).unwrap(), n(0, 1));
}

#[test]
fn test_sub() {
    assert_eq!(sub(&n(1, 1), &n(1, 2)).unwrap(), n(1, 2));
    assert_eq!(sub(&n(2, 3), &n(1, 6)).unwrap(), n(1, 2));
    assert_eq!(sub(&n(1, 2), &n(1, 2)).unwrap(), n(0, 1));
}

#[test]
fn test_mul() {
    assert_eq!(mul(&n(2, 3), &n(3, 4)).unwrap(), n(1, 2));
    assert_eq!(mul(&n(1, 2), &n(0, 1)).unwrap(), n(0, 1));
    assert_eq!(mul(&n(-1, 2), &n(2, 1)).unwrap(), n(-1, 1));
}

#[test]
fn test_div() {
    assert_eq!(div(&n(1, 2), &n(1, 4)).unwrap(), n(2, 1));
    assert_eq!(div(&n(2, 3), &n(2, 3)).unwrap(), n(1, 1));
    assert_eq!(div(&n(-1, 2), &n(1, 2)).unwrap(), n(-1, 1));
}

#[test]
fn test_div_by_zero() {
    let result = div(&n(1, 2), &n(0, 1));
    assert!(matches!(result, Err(NumberError::DivisionByZero)));
}

#[test]
fn reduced_with_positive_denominator() {
    let x = n(6, -4);
    assert!(*x.numerator() == BigInt::from(-3i64));
    assert!(*x.denominator() == BigInt::from(2i64));
    let y = n(-12, -18);
    assert_eq!(y.to_string(), "2/3");
    let z = n(0, -7);
    assert!(*z.numerator() == BigInt::from(0i64));
    assert!(*z.denominator() == BigInt::from(1i64));
}

#[test]
fn equal_by_value() {
    assert!(n(1, 2) == n(2, 4));
    assert!(n(2, 4) == n(-1, -2));
    assert_eq!(n(2, 4).to_string(), n(-1, -2).to_string());
    assert!(n(1, 2) != n(1, 3));
}

#[test]
fn sign_carried_by_numerator() {
    let x = n(1, -2);
    assert!(*x.numerator() == BigInt::from(-1i64));
    assert!(*x.denominator() == BigInt::from(2i64));
    assert_eq!(x.sign(), Sign::Minus);
}

#[test]
fn order_over_all_sign_classes() {
    let values = [n(-3, 2), n(-1, 2), n(-1, 3), n(0, 1), n(1, 3), n(1, 2), n(3, 2)];
    for (i, a) in values.iter().enumerate() {
        for (j, b) in values.iter().enumerate() {
            let expected = i.cmp(&j);
            assert_eq!(compare(a, b), expected);
            assert_eq!(compare(b, a), expected.reverse());
            for c in values.iter() {
                if compare(a, b) != Ordering::Greater && compare(b, c) != Ordering::Greater {
                    assert!(compare(a, c) != Ordering::Greater);
                }
            }
        }
    }
}

#[test]
fn arithmetic_identities() {
    for x in [n(-7, 3), n(0, 1), n(5, 8), n(4, 1)] {
        assert_eq!(add(&x, &Number::zero()).unwrap().to_string(), x.to_string());
        assert_eq!(mul(&x, &Number::one()).unwrap().to_string(), x.to_string());
        assert_eq!(sub(&x, &x).unwrap().to_string(), "0");
        if !x.is_zero() {
            assert_eq!(div(&x, &x).unwrap().to_string(), "1");
        }
    }
}

#[test]
fn division_by_zero_for_any_dividend() {
    for x in [n(0, 1), n(-5, 3), n(9, 1)] {
        assert_eq!(div(&x, &Number::zero()).unwrap_err(), NumberError::DivisionByZero);
    }
}

#[test]
fn zero_denominator_rejected() {
    for v in [-3i64, 0, 8] {
        let r = Number::new(BigInt::from(v), BigInt::from(0i64));
        assert_eq!(r.unwrap_err(), NumberError::ZeroDenominator);
    }
}

#[test]
fn worked_examples() {
    assert_eq!(add(&n(1, 2), &n(1, 2)).unwrap().to_string(), "1");
    assert_eq!(add(&n(1, 3), &n(1, 6)).unwrap().to_string(), "1/2");
    assert_eq!(sub(&n(2, 3), &n(1, 6)).unwrap().to_string(), "1/2");
    assert_eq!(mul(&n(2, 3), &n(3, 4)).unwrap().to_string(), "1/2");
    assert_eq!(div(&n(1, 2), &n(1, 4)).unwrap().to_string(), "2");
    assert!(n(1, 2) < n(1, 1));
    assert!(n(2, 3) > n(2, 4));
    assert!(n(-1, 2) > n(-1, 1));
}

#[test]
fn text_form() {
    assert_eq!(n(-3, 6).to_string(), "-1/2");
    assert_eq!(n(4, 2).to_string(), "2");
    assert_eq!(Number::zero().to_string(), "0");
    assert_eq!(Number::one().to_string(), "1");
}

#[test]
fn predicates() {
    assert!(n(4, 2).is_int());
    assert!(!n(1, 2).is_int());
    assert!(n(0, 3).is_zero());
    assert!(!n(1, 3).is_zero());
    assert_eq!(n(0, 3).sign(), Sign::NoSign);
    assert_eq!(n(2, 3).sign(), Sign::Plus);
}

#[test]
fn beyond_machine_integers() {
    let big = Number::from(u64::MAX);
    let sq = mul(&big, &big).unwrap();
    assert_eq!(sq.to_string(), "340282366920938463426481119284349108225");
    let r = Number::new(BigInt::from(1u128 << 100), BigInt::from(3u128 << 98)).unwrap();
    assert_eq!(r.to_string(), "4/3");
    let q = div(&Number::from(i128::MIN), &Number::from(u128::MAX)).unwrap();
    assert_eq!(q.to_string(), "-170141183460469231731687303715884105728/340282366920938463463374607431768211455");
}

#[test]
fn operators_delegate() {
    assert_eq!((n(1, 2) + n(1, 3)).unwrap().to_string(), "5/6");
    assert_eq!((n(1, 2) - n(1, 3)).unwrap().to_string(), "1/6");
    assert_eq!((n(2, 3) * n(9, 4)).unwrap().to_string(), "3/2");
    assert_eq!((n(2, 3) / n(4, 1)).unwrap().to_string(), "1/6");
    assert_eq!((n(2, 3) / Number::zero()).unwrap_err(), NumberError::DivisionByZero);
}

#[test]
fn conversions_from_machine_integers() {
    assert_eq!(Number::from(-7i8).to_string(), "-7");
    assert_eq!(Number::from(300u16).to_string(), "300");
    assert_eq!(Number::from(-70000i32).to_string(), "-70000");
    assert_eq!(Number::from(9usize).to_string(), "9");
    assert_eq!(Number::from(-9isize).to_string(), "-9");
    assert!(Number::from(5u8).is_int());
}

#[test]
fn big_integer_comparisons() {
    let a = BigInt::from(-7i64);
    let b = BigInt::from(2u64);
    assert!(a < b);
    assert!(b > a);
    assert!(a != b);
    assert!(b == BigInt::from(2i128));
    assert!(BigInt::from(u128::MAX) > BigInt::from(u64::MAX));
    assert_eq!(a.partial_cmp(&b), Some(Ordering::Less));
}
