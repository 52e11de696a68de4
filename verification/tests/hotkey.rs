use std::cell::Cell;
use std::rc::Rc;

use key_flow::key_hook::{process_hook_event, WM_KEYDOWN, WM_KEYUP};
use key_flow::{keys, Hotkey, HotkeyHandler, InputState, Key};

/// A handler that counts how often it fired.
struct Counter(Rc<Cell<u32>>);

impl HotkeyHandler for Counter {
    fn invoke(&self) {
        self.0.set(self.0.get() + 1);
    }
}

fn feed(state: &mut InputState<Counter>, code: u8, down: bool) -> bool {
    let message = if down { WM_KEYDOWN } else { WM_KEYUP };
    process_hook_event(state, 0, message, code as u32, false)
}

#[test]
fn press_fires_once_and_blocks() {
    let mut state: InputState<Counter> = InputState::new();
    let presses = Rc::new(Cell::new(0u32));
    let releases = Rc::new(Cell::new(0u32));
    let hotkey = Hotkey::new(&[Key::new(keys::A), Key::new(keys::A + 1)])
        .on_press(Counter(presses.clone()))
        .on_release(Counter(releases.clone()))
        .blocking();
    let _handle = hotkey.register(&mut state);

    // A down: no full match yet, nothing fires, nothing blocks.
    assert!(!feed(&mut state, keys::A, true));
    assert_eq!(presses.get(), 0);

    // B down: the combination is complete; on_press fires once and the
    // event is blocked.
    assert!(feed(&mut state, keys::A + 1, true));
    assert_eq!(presses.get(), 1);
    assert_eq!(releases.get(), 0);
    assert!(state.hotkeys[0].state);

    // B up: on_release fires once and the match state falls.
    assert!(feed(&mut state, keys::A + 1, false));
    assert_eq!(presses.get(), 1);
    assert_eq!(releases.get(), 1);
    assert!(!state.hotkeys[0].state);
}

#[test]
fn extra_keys_do_not_prevent_a_match() {
    let mut state: InputState<Counter> = InputState::new();
    let presses = Rc::new(Cell::new(0u32));
    let handle = Hotkey::new(&[Key::new(keys::A)])
        .on_press(Counter(presses.clone()))
        .register(&mut state);
    assert_eq!(handle.id, 1);

    // An unrelated key held at the same time leaves the match alone.
    assert!(!feed(&mut state, keys::SPACE, true));
    assert!(!feed(&mut state, keys::A, true));
    assert_eq!(presses.get(), 1);

    // A non-blocking hotkey never suppresses the event.
    assert!(state.hotkeys[0].state);
}

#[test]
fn disable_suppresses_and_enable_restores_firing() {
    let mut state: InputState<Counter> = InputState::new();
    let presses = Rc::new(Cell::new(0u32));
    let handle = Hotkey::new(&[Key::new(keys::A), Key::new(keys::A + 1)])
        .on_press(Counter(presses.clone()))
        .register(&mut state);

    // Disabled: the full press sequence fires nothing.
    handle.disable(&mut state);
    assert!(!feed(&mut state, keys::A, true));
    assert!(!feed(&mut state, keys::A + 1, true));
    assert_eq!(presses.get(), 0);
    assert!(!state.hotkeys[0].enabled());

    // Enabled again: repeating the sequence fires the handler.
    handle.enable(&mut state);
    assert!(!feed(&mut state, keys::A, true));
    assert_eq!(presses.get(), 1);
    assert!(state.hotkeys[0].enabled());
}

#[test]
fn requests_apply_in_enqueue_order() {
    let mut state: InputState<Counter> = InputState::new();
    let handle = Hotkey::new(&[Key::new(keys::A)]).register(&mut state);

    // disable, toggle, toggle, enable, toggle — applied in order to an
    // enabled hotkey that leaves it disabled.
    handle.disable(&mut state);
    handle.toggle(&mut state);
    handle.toggle(&mut state);
    handle.enable(&mut state);
    handle.toggle(&mut state);
    feed(&mut state, keys::SPACE, true);
    assert!(!state.hotkeys[0].enabled());

    // One more toggle flips it back.
    handle.toggle(&mut state);
    feed(&mut state, keys::SPACE, false);
    assert!(state.hotkeys[0].enabled());
}

#[test]
fn a_full_queue_drops_the_oldest_request() {
    let mut state: InputState<Counter> = InputState::new();
    let handle = Hotkey::new(&[Key::new(keys::A)]).register(&mut state);

    // The first request is pushed out by 64 later ones: only the toggles
    // survive, and an even number of them leaves the hotkey enabled.
    handle.disable(&mut state);
    for _ in 0..64 {
        handle.toggle(&mut state);
    }
    feed(&mut state, keys::SPACE, true);
    assert!(state.hotkeys[0].enabled());
}

#[test]
fn a_stale_handle_is_a_silent_no_op() {
    let mut state: InputState<Counter> = InputState::new();
    let presses = Rc::new(Cell::new(0u32));
    let _handle = Hotkey::new(&[Key::new(keys::A)])
        .on_press(Counter(presses.clone()))
        .register(&mut state);

    let stale = key_flow::HotkeyHandle { id: 999 };
    stale.disable(&mut state);
    feed(&mut state, keys::A, true);
    assert_eq!(presses.get(), 1);
}

#[test]
fn disabled_hotkey_keeps_its_match_state() {
    let mut state: InputState<Counter> = InputState::new();
    let presses = Rc::new(Cell::new(0u32));
    let handle = Hotkey::new(&[Key::new(keys::A)])
        .on_press(Counter(presses.clone()))
        .register(&mut state);

    // Match, then disable while the key stays held: the stored match state
    // is preserved, so re-enabling on the unchanged combination does not
    // refire.
    feed(&mut state, keys::A, true);
    assert_eq!(presses.get(), 1);
    handle.disable(&mut state);
    feed(&mut state, keys::SPACE, true);
    assert!(state.hotkeys[0].state);
    handle.enable(&mut state);
    feed(&mut state, keys::SPACE, false);
    assert_eq!(presses.get(), 1);
}

#[test]
fn registration_assigns_fresh_ids_in_order() {
    let mut state: InputState<Counter> = InputState::new();
    let first = Hotkey::new(&[Key::new(keys::A)]).register(&mut state);
    let second = Hotkey::new(&[Key::new(keys::A + 1)]).register(&mut state);
    assert_eq!(first.id, 1);
    assert_eq!(second.id, 2);
    assert_eq!(state.hotkeys.len(), 2);
    assert!(state.hotkeys[0].registered);
    assert!(state.hotkeys[1].registered);
}

#[test]
fn a_repeated_key_cancels_out_of_the_combination() {
    let mut state: InputState<Counter> = InputState::new();
    let hotkey: Hotkey<Counter> = Hotkey::new(&[Key::new(keys::A), Key::new(keys::A)]);
    // The XOR-fold of a key with itself is empty.
    assert_eq!(hotkey.key_pattern, key_flow::KeyPattern::zero());
    let disabled: Hotkey<Counter> = Hotkey::new(&[Key::new(keys::A)]).disabled();
    assert!(!disabled.enabled);
    let _ = state;
}
