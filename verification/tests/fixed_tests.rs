use compressible_flow::add;
use compressible_flow::fixed::{Fixed, SCALE};

fn raw(bits: i64) -> Fixed {
    Fixed::from_raw(bits)
}

#[test]
fn add_sums() {
    assert_eq!(add(2, 3), 5);
    assert_eq!(add(0, u64::MAX), u64::MAX);
}

#[test]
fn constructors_give_exact_values() {
    assert_eq!(Fixed::zero().to_raw(), 0);
    assert_eq!(Fixed::one().to_raw(), SCALE);
    assert_eq!(Fixed::from_int(3).to_raw(), 3 * SCALE);
    assert_eq!(Fixed::from_int(-7).to_raw(), -7 * SCALE);
    assert_eq!(Fixed::from_ratio(1, 2).to_raw(), SCALE / 2);
    assert_eq!(Fixed::from_ratio(-3, 4).to_raw(), -3 * (SCALE / 4));
    assert_eq!(Fixed::from_ratio(14, 10).to_raw(), 1539316278886);
    assert!(!Fixed::from_int(1 << 40).is_defined());
    assert!(!Fixed::from_ratio(1, 0).is_defined());
    assert!(!Fixed::undefined().is_defined());
    assert!(Fixed::zero().is_defined());
    assert_eq!(Fixed::pi().to_raw(), 3454217652358);
    assert_eq!(Fixed::half_pi().to_raw(), 1727108826179);
}

#[test]
fn sums_and_differences_are_exact() {
    assert_eq!(raw(5).plus(raw(-8)), raw(-3));
    assert_eq!(raw(5).minus(raw(-8)), raw(13));
    assert_eq!(raw(i64::MAX).plus(raw(-1)), raw(i64::MAX - 1));
    assert!(!raw(i64::MAX).plus(raw(1)).is_defined());
    assert!(!raw(-i64::MAX).minus(raw(1)).is_defined());
    assert!(!raw(5).plus(Fixed::undefined()).is_defined());
    assert!(!Fixed::undefined().minus(raw(5)).is_defined());
    assert_eq!(raw(21).twice(), raw(42));
    assert_eq!(raw(-9).neg(), raw(9));
    assert_eq!(raw(-9).abs(), raw(9));
    assert_eq!(raw(9).abs(), raw(9));
    assert_eq!(raw(-i64::MAX).abs(), raw(i64::MAX));
    assert!(!Fixed::undefined().neg().is_defined());
    assert!(!Fixed::undefined().abs().is_defined());
}

#[test]
fn products_round_to_nearest() {
    assert_eq!(Fixed::from_int(3).times(Fixed::from_int(-4)), Fixed::from_int(-12));
    assert_eq!(Fixed::from_ratio(1, 2).times(Fixed::from_ratio(1, 2)), Fixed::from_ratio(1, 4));
    // one raw unit times a half is half a raw unit, which rounds away from zero
    assert_eq!(raw(1).times(Fixed::from_ratio(1, 2)), raw(1));
    assert_eq!(raw(-1).times(Fixed::from_ratio(1, 2)), raw(-1));
    assert_eq!(raw(1).times(Fixed::from_ratio(1, 4)), raw(0));
    assert_eq!(raw(3).times(Fixed::from_ratio(1, 2)), raw(2));
    assert_eq!(Fixed::from_int(3).squared(), Fixed::from_int(9));
    assert!(!Fixed::from_int(4000).times(Fixed::from_int(4000)).is_defined());
    assert!(!Fixed::from_int(2).times(Fixed::undefined()).is_defined());
    assert_eq!(raw(7).times_int(-6), raw(-42));
    assert!(!raw(i64::MAX).times_int(2).is_defined());
}

#[test]
fn quotients_round_to_nearest() {
    assert_eq!(Fixed::from_int(12).over(Fixed::from_int(-4)), Fixed::from_int(-3));
    assert_eq!(Fixed::from_int(1).over(Fixed::from_int(3)).to_raw(), 366503875925);
    assert_eq!(Fixed::from_int(2).over(Fixed::from_int(3)).to_raw(), 733007751851);
    assert_eq!(Fixed::from_int(-2).over(Fixed::from_int(3)).to_raw(), -733007751851);
    assert!(!Fixed::from_int(1).over(Fixed::zero()).is_defined());
    assert!(!Fixed::from_int(1).over(Fixed::undefined()).is_defined());
    assert!(!Fixed::from_int(1 << 30).over(raw(1)).is_defined());
    assert_eq!(raw(7).div_int(2), raw(4));
    assert_eq!(raw(-7).div_int(2), raw(-4));
    assert_eq!(raw(7).div_int(-2), raw(-4));
    assert_eq!(raw(6).div_int(4), raw(2));
    assert_eq!(raw(5).div_int(4), raw(1));
    assert!(!raw(5).div_int(0).is_defined());
    assert_eq!(raw(9).half(), raw(5));
    assert_eq!(raw(-9).half(), raw(-5));
}

#[test]
fn midpoint_rounds_down_and_never_overflows() {
    assert_eq!(raw(2).midpoint(raw(5)), raw(3));
    assert_eq!(raw(-5).midpoint(raw(-2)), raw(-4));
    assert_eq!(raw(-1).midpoint(raw(0)), raw(-1));
    assert_eq!(raw(i64::MAX).midpoint(raw(i64::MAX - 2)), raw(i64::MAX - 1));
    assert_eq!(raw(-i64::MAX).midpoint(raw(i64::MAX)), raw(0));
    assert!(!raw(1).midpoint(Fixed::undefined()).is_defined());
}

#[test]
fn comparisons_are_false_on_the_undefined_value() {
    assert!(raw(1).lt(raw(2)));
    assert!(!raw(2).lt(raw(2)));
    assert!(raw(2).le(raw(2)));
    assert!(raw(3).gt(raw(2)));
    assert!(raw(2).ge(raw(2)));
    assert!(!raw(1).ge(raw(2)));
    let u = Fixed::undefined();
    assert!(!u.lt(raw(0)) && !u.le(raw(0)) && !u.gt(raw(0)) && !u.ge(raw(0)));
    assert!(!raw(0).lt(u) && !raw(0).le(u) && !raw(0).gt(u) && !raw(0).ge(u));
    assert!(!u.le(u));
}
