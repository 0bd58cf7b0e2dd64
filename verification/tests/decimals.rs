use smart_erp::decimal::{sum, sum_of_products, Decimal, MAX_MANTISSA, MAX_SCALE};

fn dec(mantissa: i128, scale: u32) -> Decimal {
    Decimal::try_from_parts(mantissa, scale).unwrap()
}

#[test]
fn parts_are_kept() {
    let d = dec(-12345, 3);
    assert_eq!(d.mantissa(), -12345);
    assert_eq!(d.scale(), 3);
    assert_eq!(Decimal::zero().mantissa(), 0);
    assert_eq!(Decimal::zero().scale(), 0);
    assert_eq!(Decimal::from_i64(-7).mantissa(), -7);
    assert_eq!(Decimal::from_i64(-7).scale(), 0);
}

#[test]
fn parts_out_of_range_are_refused() {
    assert!(Decimal::try_from_parts(1, MAX_SCALE).is_some());
    assert!(Decimal::try_from_parts(1, MAX_SCALE + 1).is_none());
    assert!(Decimal::try_from_parts(MAX_MANTISSA, 0).is_some());
    assert!(Decimal::try_from_parts(-MAX_MANTISSA, 0).is_some());
    assert!(Decimal::try_from_parts(MAX_MANTISSA + 1, 0).is_none());
    assert!(Decimal::try_from_parts(-MAX_MANTISSA - 1, 0).is_none());
    assert!(Decimal::try_from_parts(i128::MIN, 0).is_none());
}

#[test]
fn addition_is_exact() {
    let sum = dec(150, 2).checked_add(dec(25, 1)).unwrap();
    assert_eq!(sum.mantissa(), 400);
    assert_eq!(sum.scale(), 2);
    assert_eq!(Decimal::from_i64(60).checked_add(Decimal::from_i64(50)), Some(Decimal::from_i64(110)));
    // One tenth added ten times is one: no drift.
    let mut total = Decimal::zero();
    for _ in 0..10 {
        total = total.checked_add(dec(1, 1)).unwrap();
    }
    assert_eq!(total, Decimal::from_i64(1));
}

#[test]
fn subtraction_is_exact() {
    assert_eq!(Decimal::from_i64(100).checked_sub(Decimal::from_i64(20)), Some(Decimal::from_i64(80)));
    assert_eq!(dec(5, 1).checked_sub(Decimal::from_i64(1)), Some(dec(-5, 1)));
}

#[test]
fn multiplication_is_exact() {
    assert_eq!(Decimal::from_i64(3).checked_mul(Decimal::from_i64(5)), Some(Decimal::from_i64(15)));
    let product = dec(25, 1).checked_mul(dec(4, 1)).unwrap();
    assert_eq!(product.mantissa(), 100);
    assert_eq!(product.scale(), 2);
}

#[test]
fn division_divides() {
    assert_eq!(Decimal::from_i64(100).checked_div(Decimal::from_i64(4)), Some(Decimal::from_i64(25)));
    assert_eq!(Decimal::from_i64(1).checked_div(Decimal::from_i64(8)), Some(dec(125, 3)));
    assert_eq!(Decimal::from_i64(1).checked_div(Decimal::zero()), None);
}

#[test]
fn overflow_is_reported() {
    let max = dec(MAX_MANTISSA, 0);
    assert_eq!(max.checked_add(max), None);
    assert_eq!(max.checked_sub(max.negate()), None);
    assert_eq!(max.checked_mul(Decimal::from_i64(2)), None);
    assert_eq!(max.checked_add(max.negate()), Some(Decimal::zero()));
}

#[test]
fn negation_keeps_the_scale() {
    let d = dec(150, 2).negate();
    assert_eq!(d.mantissa(), -150);
    assert_eq!(d.scale(), 2);
    assert_eq!(d.negate(), dec(150, 2));
    assert_eq!(Decimal::zero().negate().mantissa(), 0);
}

#[test]
fn decimals_compare_by_value() {
    assert!(dec(150, 2).equals(dec(15, 1)));
    assert!(dec(150, 2) == dec(15, 1));
    assert!(dec(150, 2) != dec(151, 2));
    assert!(Decimal::from_i64(110).at_least(Decimal::from_i64(100)));
    assert!(Decimal::from_i64(100).at_least(Decimal::from_i64(100)));
    assert!(!Decimal::from_i64(60).at_least(Decimal::from_i64(100)));
    assert!(dec(1, 1).at_least(dec(9, 2)));
    assert!(!dec(-1, 1).at_least(dec(-9, 2)));
    assert!(Decimal::zero().at_least(dec(-1, 28)));
    assert!(dec(MAX_MANTISSA, 0).at_least(dec(MAX_MANTISSA, 28)));
}

#[test]
fn sums_run_from_zero() {
    assert_eq!(sum(&vec![]), Some(Decimal::zero()));
    assert_eq!(
        sum(&vec![Decimal::from_i64(1), dec(25, 1), Decimal::from_i64(-3)]),
        Some(dec(5, 1))
    );
    let max = dec(MAX_MANTISSA, 0);
    assert_eq!(sum(&vec![max, max, max.negate()]), None);
}

#[test]
fn sums_of_products_run_from_zero() {
    assert_eq!(sum_of_products(&vec![]), Some(Decimal::zero()));
    assert_eq!(
        sum_of_products(&vec![
            (Decimal::from_i64(2), dec(150, 2)),
            (Decimal::from_i64(3), Decimal::from_i64(4)),
        ]),
        Some(Decimal::from_i64(15))
    );
    let max = dec(MAX_MANTISSA, 0);
    assert_eq!(sum_of_products(&vec![(max, Decimal::from_i64(2))]), None);
}
