use omega_stylus::Uint256;

#[test]
fn increment_carries_into_high_half() {
    let w = Uint256 { hi: 0, lo: u128::MAX };
    assert_eq!(w.wrapping_increment(), Uint256 { hi: 1, lo: 0 });
    assert_eq!(Uint256 { hi: 5, lo: 9 }.wrapping_increment(), Uint256 { hi: 5, lo: 10 });
}

#[test]
fn increment_wraps_at_the_top() {
    let top = Uint256 { hi: u128::MAX, lo: u128::MAX };
    assert_eq!(top.wrapping_increment(), Uint256 { hi: 0, lo: 0 });
}

#[test]
fn saturating_conversion_caps_at_u64_max() {
    assert_eq!(Uint256 { hi: 0, lo: 12 }.saturating_to_u64(), 12);
    assert_eq!(Uint256 { hi: 0, lo: u64::MAX as u128 }.saturating_to_u64(), u64::MAX);
    assert_eq!(Uint256 { hi: 0, lo: u64::MAX as u128 + 1 }.saturating_to_u64(), u64::MAX);
    assert_eq!(Uint256 { hi: 1, lo: 0 }.saturating_to_u64(), u64::MAX);
}

#[test]
fn below_compares_the_whole_value() {
    assert!(Uint256 { hi: 0, lo: 2 }.is_below(3));
    assert!(!Uint256 { hi: 0, lo: 3 }.is_below(3));
    assert!(!Uint256 { hi: 1, lo: 0 }.is_below(usize::MAX));
    assert_eq!(Uint256::from_u64(7), Uint256 { hi: 0, lo: 7 });
}
