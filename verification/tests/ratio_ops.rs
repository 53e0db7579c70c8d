//! Exactness of the rational arithmetic: checked operations return the
//! exact value or report unrepresentability; comparisons never fail.

use basic_transmission::ratio::Ratio;

#[test]
fn test_exact_arithmetic() {
    let half = Ratio::new(1, 2);
    let third = Ratio::new(1, 3);

    let sum = half.checked_add(&third).unwrap();
    assert!(sum.eq_ratio(&Ratio::new(5, 6)));

    let diff = half.checked_sub(&third).unwrap();
    assert!(diff.eq_ratio(&Ratio::new(1, 6)));

    let product = half.checked_mul(&third).unwrap();
    assert!(product.eq_ratio(&Ratio::new(1, 6)));

    let quotient = half.checked_div(&third).unwrap();
    assert!(quotient.eq_ratio(&Ratio::new(3, 2)));

    // Division by a negative value keeps the denominator positive.
    let negative = Ratio::new(-1, 3);
    let quotient = half.checked_div(&negative).unwrap();
    assert!(quotient.den > 0);
    assert!(quotient.eq_ratio(&Ratio::new(-3, 2)));
}

#[test]
fn test_comparisons_and_min() {
    let a = Ratio::new(2, 4);
    let b = Ratio::new(1, 2);
    assert!(a.eq_ratio(&b));
    assert!(a.le(&b));
    assert!(!a.lt(&b));
    assert!(Ratio::new(-1, 3).lt(&Ratio::new(0, 1)));
    assert!(Ratio::new(1, 3).min(&Ratio::new(1, 4)).eq_ratio(&Ratio::new(1, 4)));
    assert!(Ratio::new(-5, 1).is_nonneg() == false);
    assert!(Ratio::new(0, 1).is_nonneg());
    assert!(!Ratio::new(0, 1).is_pos());
}

#[test]
fn test_overflow_is_reported_not_wrapped() {
    let huge = Ratio::new(i64::MAX, 1);
    assert!(huge.checked_add(&Ratio::new(1, 1)).is_none());
    assert!(huge.checked_mul(&Ratio::new(2, 1)).is_none());
    // Comparisons still work at the extremes.
    assert!(Ratio::new(i64::MIN, 1).lt(&huge));

    let fine = Ratio::new(i64::MAX, 2);
    assert!(fine.checked_add(&Ratio::new(0, 1)).is_some());
}

#[test]
fn test_floor_of_nonnegative() {
    assert_eq!(Ratio::new(9, 4).floor_nonneg(), 2);
    assert_eq!(Ratio::new(8, 4).floor_nonneg(), 2);
    assert_eq!(Ratio::new(0, 7).floor_nonneg(), 0);
    assert_eq!(Ratio::from_int(41).floor_nonneg(), 41);
}
