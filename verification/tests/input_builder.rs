use key_flow::{keys, InputBuilder, InputStep, Key, KeyPattern};

fn step(code: u8, down: bool, delay_millis: u64) -> InputStep {
    InputStep { code, down, delay_millis }
}

#[test]
fn press_and_release_plan_one_step_per_key() {
    let builder = InputBuilder::new()
        .with_press(&Key::new(keys::A))
        .with_release(&Key::new(keys::A));
    assert_eq!(
        builder.steps,
        vec![step(keys::A, true, 0), step(keys::A, false, 0)]
    );
}

#[test]
fn a_pattern_plans_its_keys_in_code_order() {
    let pattern = Key::new(keys::SHIFT).as_pattern() | Key::new(keys::A).as_pattern();
    let builder = InputBuilder::new().with_press(&pattern);
    assert_eq!(
        builder.steps,
        vec![step(keys::SHIFT, true, 0), step(keys::A, true, 0)]
    );
}

#[test]
fn click_presses_then_releases() {
    let mut builder = InputBuilder::new();
    builder.add_click(&Key::new(keys::SPACE));
    assert_eq!(
        builder.steps,
        vec![step(keys::SPACE, true, 0), step(keys::SPACE, false, 0)]
    );
}

#[test]
fn send_carries_the_hold_delay() {
    let builder = InputBuilder::new().with_send(&Key::new(keys::A), 25);
    assert_eq!(
        builder.steps,
        vec![step(keys::A, true, 25), step(keys::A, false, 25)]
    );
}

#[test]
fn send_str_types_each_character() {
    let builder = InputBuilder::new().with_send_str("aA", 5);
    assert_eq!(
        builder.steps,
        vec![
            // 'a': the letter key alone.
            step(keys::A, true, 5),
            step(keys::A, false, 5),
            // 'A': shift and the letter key together.
            step(keys::SHIFT, true, 5),
            step(keys::A, true, 5),
            step(keys::SHIFT, false, 5),
            step(keys::A, false, 5),
        ]
    );
}

#[test]
fn an_empty_pattern_plans_nothing() {
    let mut builder = InputBuilder::new();
    builder.add_press(&KeyPattern::zero());
    builder.add_send_str("", 10);
    assert_eq!(builder.steps, Vec::<InputStep>::new());
}
