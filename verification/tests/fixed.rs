use mli::fixed::Fixed;
use mli::scalar::{Real, Scalar};

fn raw(n: i64) -> Fixed {
    Fixed::from_raw(n)
}

#[test]
fn fixed_one_is_sixty_five_thousand_raw_units() {
    assert_eq!(<Fixed as Scalar>::one().raw, 65536);
    assert_eq!(<Fixed as Scalar>::zero().raw, 0);
    assert_eq!(Fixed::half().raw, 32768);
    assert_eq!(Fixed::from_index(3).raw, 3 * 65536);
    assert_eq!(Fixed::from_whole(-3).raw, -3 * 65536);
}

#[test]
fn fixed_adds_and_subtracts() {
    assert_eq!(Scalar::add(raw(3), raw(-5)), raw(-2));
    assert_eq!(Scalar::sub(raw(3), raw(-5)), raw(8));
}

#[test]
fn fixed_saturates_at_both_ends() {
    assert_eq!(Scalar::add(raw(i64::MAX), raw(1)), raw(i64::MAX));
    assert_eq!(Scalar::sub(raw(i64::MIN), raw(1)), raw(i64::MIN));
    assert_eq!(Scalar::mul(raw(i64::MAX), raw(i64::MAX)), raw(i64::MAX));
    assert_eq!(Scalar::mul(raw(i64::MAX), raw(i64::MIN)), raw(i64::MIN));
    assert_eq!(Fixed::from_index(usize::MAX), raw(i64::MAX));
    assert_eq!(Fixed::from_whole(i64::MIN), raw(i64::MIN));
}

#[test]
fn fixed_multiplies_and_rounds_down() {
    // 1.5 * 1.5 = 2.25; -1.5 * 1.5 = -2.25.
    assert_eq!(Scalar::mul(raw(98304), raw(98304)), raw(147456));
    assert_eq!(Scalar::mul(raw(-98304), raw(98304)), raw(-147456));
    // The smallest steps: a product below one raw unit rounds towards minus infinity.
    assert_eq!(Scalar::mul(raw(1), raw(1)), raw(0));
    assert_eq!(Scalar::mul(raw(-1), raw(1)), raw(-1));
}

#[test]
fn fixed_divides_towards_zero() {
    assert_eq!(raw(7 * 65536).div(raw(2 * 65536)), raw(229376));
    assert_eq!(raw(-7 * 65536).div(raw(2 * 65536)), raw(-229376));
    assert_eq!(raw(1).div(raw(3 * 65536)), raw(0));
    assert_eq!(raw(-1).div(raw(3 * 65536)), raw(0));
}

#[test]
fn fixed_division_by_zero_saturates_by_sign() {
    assert_eq!(raw(5).div(raw(0)), raw(i64::MAX));
    assert_eq!(raw(-5).div(raw(0)), raw(i64::MIN));
    assert_eq!(raw(0).div(raw(0)), raw(0));
}

#[test]
fn fixed_floor_and_ceil() {
    assert_eq!((raw(98304).floor(), raw(98304).ceil()), (1, 2));
    assert_eq!((raw(-98304).floor(), raw(-98304).ceil()), (-2, -1));
    assert_eq!((raw(3 * 65536).floor(), raw(3 * 65536).ceil()), (3, 3));
    assert_eq!((raw(-3 * 65536).floor(), raw(-3 * 65536).ceil()), (-3, -3));
    assert_eq!((raw(1).floor(), raw(1).ceil()), (0, 1));
    assert_eq!((raw(-1).floor(), raw(-1).ceil()), (-1, 0));
}

#[test]
fn fixed_square_root() {
    assert_eq!(raw(9 * 65536).sqrt(), raw(3 * 65536));
    assert_eq!(raw(16384).sqrt(), raw(32768));
    assert_eq!(raw(2 * 65536).sqrt(), raw(92681));
    assert_eq!(raw(0).sqrt(), raw(0));
    assert_eq!(raw(-65536).sqrt(), raw(0));
    assert_eq!(raw(i64::MAX).sqrt(), raw(777472127993));
}

#[test]
fn fixed_order_and_sign() {
    assert!(raw(-1).lt(raw(0)));
    assert!(!raw(0).lt(raw(0)));
    assert!(raw(0).is_sign_positive());
    assert!(!raw(-1).is_sign_positive());
}
