use etable_conversion::cell::Context;
use etable_conversion::expression::{Cell, Expression};
use etable_conversion::field::Modulus;

// 2^128 + 51
fn small() -> Modulus {
    Modulus::from_limbs([51, 0, 1, 0]).unwrap()
}

#[test]
fn modulus_below_two_to_the_128_is_refused() {
    assert!(Modulus::from_limbs([u64::MAX, u64::MAX, 0, 0]).is_none());
    assert!(Modulus::from_limbs([0, 0, 0, 0]).is_none());
    assert!(Modulus::from_limbs([0, 0, 1, 0]).is_some());
    assert!(Modulus::from_limbs([0, 0, 0, 1]).is_some());
}

#[test]
fn sum_reduces_by_the_modulus() {
    let p = small();
    let a = p.element((1u128 << 127) + 100);
    let b = p.element(1u128 << 127);
    assert_eq!(p.sum(&a, &b).to_u128(), Some(49));
    assert_eq!(p.sum(&p.element(2), &p.element(3)).to_u128(), Some(5));
}

#[test]
fn product_reduces_by_the_modulus() {
    let p = small();
    let a = p.element((1u128 << 64) + 1);
    let b = p.element(1u128 << 64);
    assert_eq!(p.product(&a, &b).to_u128(), Some((1u128 << 64) - 51));
    assert_eq!(p.product(&p.element(6), &p.element(7)).to_u128(), Some(42));
    assert_eq!(p.product(&p.element(0), &p.element(7)).to_u128(), Some(0));
}

#[test]
fn negation_is_the_additive_inverse() {
    let p = small();
    let five = p.element(5);
    let minus_five = p.negation(&five);
    assert_eq!(minus_five.to_u128(), None);
    assert!(p.sum(&five, &minus_five).is_zero());
    assert_eq!(p.negation(&minus_five).to_u128(), Some(5));
    assert!(p.negation(&p.element(0)).is_zero());
    assert_eq!(p.negation(&p.element(52)).to_u128(), Some((1u128 << 127) - 1 + (1u128 << 127)));
}

#[test]
fn full_width_modulus_is_built_from_all_limbs() {
    let p = Modulus::from_limbs([7, 0, 0, 1]).unwrap();
    // -8 is 2^192 - 1; times 2^64 it is 2^256 - 2^64, which is -7 * 2^64 - 2^64.
    let x = p.negation(&p.element(8));
    let y = p.product(&x, &p.element(1u128 << 64));
    let z = p.sum(&y, &p.element(8u128 << 64));
    assert!(z.is_zero());
}

#[test]
fn is_zero_tells_zero_from_the_rest() {
    let p = small();
    assert!(p.element(0).is_zero());
    assert!(!p.element(1).is_zero());
    assert!(!p.negation(&p.element(1)).is_zero());
}

#[test]
fn evaluate_follows_the_polynomial() {
    let p = small();
    let mut ctx = Context::new();
    ctx.assign(Cell { index: 0 }, 10);
    ctx.assign(Cell { index: 3 }, u64::MAX);
    let x = Cell { index: 0 };
    let y = Cell { index: 3 };
    let e = Expression::sum(
        Expression::product(x.expr(), Expression::constant(3)),
        Expression::constant(4),
    );
    assert_eq!(e.evaluate(&ctx, &p).to_u128(), Some(34));
    let square = Expression::product(y.expr(), y.expr());
    assert_eq!(
        square.evaluate(&ctx, &p).to_u128(),
        Some(u128::MAX - 2 * (u64::MAX as u128))
    );
    let zero = Expression::difference(x.expr(), Expression::constant(10));
    assert!(zero.evaluate(&ctx, &p).is_zero());
    let below = Expression::difference(x.expr(), Expression::constant(11));
    assert_eq!(below.evaluate(&ctx, &p).to_u128(), None);
    assert!(Expression::sum(below, Expression::constant(1)).evaluate(&ctx, &p).is_zero());
}

#[test]
fn evaluate_reads_unassigned_cells_as_zero() {
    let p = small();
    let ctx = Context::new();
    assert!(Cell { index: 99 }.expr().evaluate(&ctx, &p).is_zero());
}

#[test]
fn evaluate_reduces_constants_above_the_field_only_when_they_exceed_it() {
    let p = small();
    let ctx = Context::new();
    assert_eq!(Expression::constant(u128::MAX).evaluate(&ctx, &p).to_u128(), Some(u128::MAX));
    let twice = Expression::sum(Expression::constant(u128::MAX), Expression::constant(u128::MAX));
    // 2 * (2^128 - 1) = (2^128 + 51) + (2^128 - 53)
    assert_eq!(twice.evaluate(&ctx, &p).to_u128(), Some(u128::MAX - 52));
}
