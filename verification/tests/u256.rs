use key_flow::U256;

#[test]
fn test_add() {
    assert_eq!(U256::new(1, 0) + U256::new(0, 1), U256::new(1, 1));
}

#[test]
fn test_mul() {
    assert_eq!(U256::new(0, 2) * U256::new(0, 3), U256::new(0, 6));
}

#[test]
fn test_bitwise_and() {
    assert_eq!(
        U256::new(0b1100, 0b1010) & U256::new(0b1010, 0b1100),
        U256::new(0b1000, 0b1000)
    );
}

#[test]
fn test_bitwise_or() {
    assert_eq!(
        U256::new(0b1100, 0b1010) | U256::new(0b1010, 0b1100),
        U256::new(0b1110, 0b1110)
    );
}

#[test]
fn test_bitwise_xor() {
    assert_eq!(
        U256::new(0b1100, 0b1010) ^ U256::new(0b1010, 0b1100),
        U256::new(0b0110, 0b0110)
    );
}

#[test]
fn test_shift_left() {
    assert_eq!(U256::new(0, 1) << 128, U256::new(1, 0));
}

#[test]
fn test_shift_right() {
    assert_eq!(U256::new(1, 0) >> 128, U256::new(0, 1));
}

#[test]
fn add_carries_across_the_halves() {
    let (sum, overflow) = U256::new(0, u128::MAX).overflowing_add(U256::new(0, 1));
    assert_eq!(sum, U256::new(1, 0));
    assert!(!overflow);
}

#[test]
fn add_reports_overflow_out_of_the_high_half() {
    let (sum, overflow) = U256::new(u128::MAX, u128::MAX).overflowing_add(U256::new(0, 1));
    assert_eq!(sum, U256::new(0, 0));
    assert!(overflow);
}

#[test]
fn add_reports_overflow_when_the_low_carry_wraps_the_high_half() {
    // The low-half carry alone pushes the sum to exactly 2^256, so the flag
    // must be set even though neither high half reaches the radix by itself.
    let (sum, overflow) = U256::new(0, u128::MAX).overflowing_add(U256::new(u128::MAX, 1));
    assert_eq!(sum, U256::new(0, 0));
    assert!(overflow);

    let (sum, overflow) = U256::new(0, u128::MAX).overflowing_add(U256::new(u128::MAX, 2));
    assert_eq!(sum, U256::new(0, 1));
    assert!(overflow);
}

#[test]
fn mul_flag_reports_a_nonzero_high_half() {
    let (product, overflow) = U256::new(0, 2).overflowing_mul(U256::new(0, 3));
    assert_eq!(product, U256::new(0, 6));
    assert!(!overflow);

    // The flag is not true numeric overflow: a cross term lands in the high
    // half and raises it.
    let (product, overflow) = U256::new(1, 0).overflowing_mul(U256::new(0, 2));
    assert_eq!(product, U256::new(2, 0));
    assert!(overflow);
}

#[test]
fn shifts_move_bits_across_the_halves() {
    assert_eq!(U256::new(0, 1 << 127) << 1, U256::new(1, 0));
    assert_eq!(U256::new(1, 0) >> 1, U256::new(0, 1 << 127));
    assert_eq!(U256::new(0, 5) << 0, U256::new(0, 5));
    assert_eq!(U256::new(7, 5) << 256, U256::new(0, 0));
    assert_eq!(U256::new(7, 5) >> 256, U256::new(0, 0));
}

#[test]
fn default_is_zero() {
    assert_eq!(U256::default(), U256::zero());
    assert_eq!(U256::zero(), U256::new(0, 0));
}
