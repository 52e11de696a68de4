use key_flow::{keys, Key};

#[test]
fn from_char_maps_letters_digits_and_symbols() {
    assert_eq!(Key::from_char('a'), vec![Key::new(keys::A)]);
    assert_eq!(Key::from_char('z'), vec![Key::new(keys::A + 25)]);
    assert_eq!(Key::from_char('A'), vec![Key::new(keys::SHIFT), Key::new(keys::A)]);
    assert_eq!(Key::from_char('0'), vec![Key::new(keys::KEY_0)]);
    assert_eq!(Key::from_char('7'), vec![Key::new(keys::KEY_0 + 7)]);
    assert_eq!(
        Key::from_char('!'),
        vec![Key::new(keys::SHIFT), Key::new(keys::KEY_0)]
    );
    assert_eq!(
        Key::from_char(')'),
        vec![Key::new(keys::SHIFT), Key::new(keys::KEY_0 + 9)]
    );
    assert_eq!(Key::from_char(' '), vec![Key::new(keys::SPACE)]);
    assert_eq!(
        Key::from_char('<'),
        vec![Key::new(keys::SHIFT), Key::new(keys::COMMA)]
    );
    assert_eq!(Key::from_char('\n'), vec![Key::new(keys::ENTER)]);
    assert_eq!(Key::from_char('\u{3b1}'), Vec::<Key>::new());
}

#[test]
fn from_str_maps_each_character() {
    let rows = Key::from_str("a!");
    assert_eq!(rows.len(), 2);
    assert_eq!(rows[0], vec![Key::new(keys::A)]);
    assert_eq!(rows[1], vec![Key::new(keys::SHIFT), Key::new(keys::KEY_0)]);
}

#[test]
fn modifier_keys_are_recognized() {
    assert!(Key::new(keys::SHIFT).is_modifier_key());
    assert!(Key::new(keys::LSHIFT).is_modifier_key());
    assert!(Key::new(keys::RCONTROL).is_modifier_key());
    assert!(Key::new(keys::LWIN).is_modifier_key());
    assert!(!Key::new(keys::A).is_modifier_key());
    assert!(!Key::new(keys::LBUTTON).is_modifier_key());
}

#[test]
fn down_reads_the_given_state() {
    let states = Key::new(keys::A).as_pattern() | Key::new(200).as_pattern();
    assert!(Key::new(keys::A).down(&states));
    assert!(Key::new(200).down(&states));
    assert!(!Key::new(keys::SPACE).down(&states));
    assert!(!Key::new(0).down(&states));
    assert_eq!(Key::new(keys::A).key_code(), keys::A);
}
