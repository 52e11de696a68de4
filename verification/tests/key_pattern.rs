use key_flow::{Key, KeyPattern};

#[test]
fn test_key_pattern_add() {
    assert_eq!(
        KeyPattern::new(1, 0) + KeyPattern::new(0, 1),
        KeyPattern::new(1, 1)
    );
}

#[test]
fn key_pattern_add_flag_is_true_overflow() {
    let (sum, overflow) =
        KeyPattern::new(0, u128::MAX).overflowing_add(KeyPattern::new(u128::MAX, 1));
    assert_eq!(sum, KeyPattern::new(0, 0));
    assert!(overflow);
    let (sum, overflow) = KeyPattern::new(0, u128::MAX).overflowing_add(KeyPattern::new(0, 1));
    assert_eq!(sum, KeyPattern::new(1, 0));
    assert!(!overflow);
}

#[test]
fn test_key_pattern_mul() {
    assert_eq!(
        KeyPattern::new(0, 2) * KeyPattern::new(0, 3),
        KeyPattern::new(0, 6)
    );
}

#[test]
fn test_key_pattern_bitwise_and() {
    assert_eq!(
        KeyPattern::new(0b1100, 0b1010) & KeyPattern::new(0b1010, 0b1100),
        KeyPattern::new(0b1000, 0b1000)
    );
    assert_eq!(
        KeyPattern::new(0b1100, 0b1010) & Key::new(0b0010),
        KeyPattern::new(0b0000, 0b0010)
    );

    let mut value: KeyPattern = KeyPattern::new(0b1100, 0b1010);
    value = value & KeyPattern::new(0b1010, 0b1100);
    assert_eq!(value, KeyPattern::new(0b1000, 0b1000));

    let mut value: KeyPattern = KeyPattern::new(0b1100, 0b1010);
    value = value & Key::new(0b0010);
    assert_eq!(value, KeyPattern::new(0b0000, 0b0010));
}

#[test]
fn test_key_pattern_bitwise_or() {
    assert_eq!(
        KeyPattern::new(0b1100, 0b1010) | KeyPattern::new(0b1010, 0b1100),
        KeyPattern::new(0b1110, 0b1110)
    );
    assert_eq!(
        KeyPattern::new(0b1100, 0b1010) | Key::new(0b0001),
        KeyPattern::new(0b1100, 0b1011)
    );
    assert_eq!(
        KeyPattern::new(0b1100, 0b1010) | Key::new(0b0010),
        KeyPattern::new(0b1100, 0b1010)
    );

    let mut value: KeyPattern = KeyPattern::new(0b1100, 0b1010);
    value = value | KeyPattern::new(0b1010, 0b1100);
    assert_eq!(value, KeyPattern::new(0b1110, 0b1110));

    let mut value: KeyPattern = KeyPattern::new(0b1100, 0b1010);
    value = value | Key::new(0b0001);
    assert_eq!(value, KeyPattern::new(0b1100, 0b1011));
}

#[test]
fn test_key_pattern_bitwise_xor() {
    assert_eq!(
        KeyPattern::new(0b1100, 0b1010) ^ KeyPattern::new(0b1010, 0b1100),
        KeyPattern::new(0b0110, 0b0110)
    );
    assert_eq!(
        KeyPattern::new(0b1100, 0b1010) ^ Key::new(0b0001),
        KeyPattern::new(0b1100, 0b1011)
    );

    let mut value: KeyPattern = KeyPattern::new(0b1100, 0b1010);
    value = value ^ KeyPattern::new(0b1010, 0b1100);
    assert_eq!(value, KeyPattern::new(0b0110, 0b0110));

    let mut value: KeyPattern = KeyPattern::new(0b1100, 0b1010);
    value = value ^ Key::new(0b0001);
    assert_eq!(value, KeyPattern::new(0b1100, 0b1011));
}

#[test]
fn test_key_pattern_shift_left() {
    assert_eq!(KeyPattern::new(0, 1) << 128, KeyPattern::new(1, 0));
}

#[test]
fn test_key_pattern_shift_right() {
    assert_eq!(KeyPattern::new(1, 0) >> 128, KeyPattern::new(0, 1));
}

#[test]
fn test_all_keys_to_pattern() {
    for key_code in 0..0xFF {
        println!("Converting key with code {} to pattern.", key_code);
        Key::new(key_code).as_pattern();
    }
}

#[test]
fn test_pattern_to_key_list() {
    let key_codes: [u8; 6] = [3, 6, 9, 22, 127, 255];
    let pattern: KeyPattern = key_codes
        .iter()
        .map(|code| Key::new(*code).as_pattern())
        .reduce(|a, b| a | b)
        .unwrap();
    assert_eq!(
        pattern.as_keys(),
        key_codes.iter().map(|code| Key::new(*code)).collect::<Vec<Key>>()
    );
}

#[test]
fn single_key_patterns_set_one_bit() {
    assert_eq!(Key::new(0).as_pattern(), KeyPattern::zero());
    assert_eq!(Key::new(1).as_pattern(), KeyPattern::new(0, 1));
    assert_eq!(Key::new(128).as_pattern(), KeyPattern::new(0, 1 << 127));
    assert_eq!(Key::new(129).as_pattern(), KeyPattern::new(1, 0));
    assert_eq!(Key::new(255).as_pattern(), KeyPattern::new(1 << 126, 0));
}

#[test]
fn keys_reconstruct_the_pattern() {
    // Every pattern without the codeless topmost bit survives the round trip
    // through its key list.
    let samples = [
        KeyPattern::new(0, 0),
        KeyPattern::new(0, 1),
        KeyPattern::new(0x55aa_33cc, 0xdead_beef),
        KeyPattern::new((1 << 126) | 7, u128::MAX),
    ];
    for pattern in samples {
        let rebuilt = pattern
            .as_keys()
            .iter()
            .map(|key| key.as_pattern())
            .fold(KeyPattern::zero(), |a, b| a | b);
        assert_eq!(rebuilt, pattern);
    }
}

#[test]
fn boolean_algebra_identities_hold() {
    // A small deterministic generator stands in for random 256-bit inputs.
    let mut seed: u128 = 0x9e3779b97f4a7c15;
    let mut next = move || {
        seed ^= seed << 13;
        seed ^= seed >> 7;
        seed ^= seed << 17;
        seed
    };
    for _ in 0..32 {
        let a = KeyPattern::new(next(), next());
        let b = KeyPattern::new(next(), next());
        let c = KeyPattern::new(next(), next());
        assert_eq!((a & b) & c, a & (b & c));
        assert_eq!((a | b) | c, a | (b | c));
        assert_eq!((a ^ b) ^ c, a ^ (b ^ c));
        assert_eq!(a & b, b & a);
        assert_eq!(a | b, b | a);
        assert_eq!(!(a & b), !a | !b);
        assert_eq!(!(a | b), !a & !b);
        assert_eq!(!!a, a);
        assert_eq!(a & (b | c), (a & b) | (a & c));
    }
}

#[test]
fn shift_roundtrip_restores_a_low_pattern() {
    let pattern = KeyPattern::new(0, 0x0123_4567_89ab_cdef);
    assert_eq!((pattern << 128) >> 128, pattern);
}

#[test]
fn all_pressed_is_a_subset_test() {
    let combination = KeyPattern::new(0, 0b0110);
    assert!(combination.all_pressed(&KeyPattern::new(0, 0b1110)));
    assert!(combination.all_pressed(&KeyPattern::new(0, 0b0110)));
    assert!(!combination.all_pressed(&KeyPattern::new(0, 0b0100)));
    assert_eq!(
        combination.pressed_pattern(&KeyPattern::new(0, 0b1100)),
        KeyPattern::new(0, 0b0100)
    );
}

#[test]
fn pattern_from_char_ors_the_keys() {
    // 'A' types as shift plus the letter key, so its pattern has two bits.
    let shift = Key::new(key_flow::keys::SHIFT).as_pattern();
    let letter = Key::new(key_flow::keys::A).as_pattern();
    assert_eq!(KeyPattern::from_char('A'), shift | letter);
    assert_eq!(KeyPattern::from_char('a'), letter);
    assert_eq!(KeyPattern::from_char('\u{3b1}'), KeyPattern::zero());

    let patterns = KeyPattern::from_str("aA");
    assert_eq!(patterns.len(), 2);
    assert_eq!(patterns[0], letter);
    assert_eq!(patterns[1], shift | letter);
}
