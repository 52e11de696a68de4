use key_flow::key_hook::{
    get_key_state, get_key_state_v, handle_key_alteration, handle_virtual_key_alteration,
    params_to_key_alteration, process_hook_event, WM_KEYDOWN, WM_KEYUP, WM_LBUTTONDOWN,
    WM_LBUTTONUP, WM_MBUTTONDOWN, WM_MBUTTONUP, WM_RBUTTONDOWN, WM_RBUTTONUP,
};
use key_flow::{keys, Hotkey, HotkeyHandler, InputState, Key, KeyPattern};

/// A handler that does nothing; these tests watch the state, not callbacks.
struct Quiet;

impl HotkeyHandler for Quiet {
    fn invoke(&self) {}
}

#[test]
fn keyboard_events_decode_to_their_key_code() {
    assert_eq!(
        params_to_key_alteration(WM_KEYDOWN, keys::A as u32, false),
        Some((keys::A, true))
    );
    assert_eq!(
        params_to_key_alteration(WM_KEYUP, keys::A as u32, false),
        Some((keys::A, false))
    );
}

#[test]
fn mouse_events_decode_to_button_codes() {
    assert_eq!(params_to_key_alteration(WM_LBUTTONDOWN, 0, false), Some((1, true)));
    assert_eq!(params_to_key_alteration(WM_LBUTTONUP, 0, false), Some((1, false)));
    assert_eq!(params_to_key_alteration(WM_RBUTTONDOWN, 0, false), Some((2, true)));
    assert_eq!(params_to_key_alteration(WM_RBUTTONUP, 0, false), Some((2, false)));
    assert_eq!(params_to_key_alteration(WM_MBUTTONDOWN, 0, false), Some((3, true)));
    assert_eq!(params_to_key_alteration(WM_MBUTTONUP, 0, false), Some((3, false)));
}

#[test]
fn injected_and_unknown_events_decode_to_nothing() {
    assert_eq!(params_to_key_alteration(WM_KEYDOWN, keys::A as u32, true), None);
    assert_eq!(params_to_key_alteration(WM_LBUTTONDOWN, 0, true), None);
    // Mouse-move and unrecognized messages carry no key alteration.
    assert_eq!(params_to_key_alteration(0x0200, 0, false), None);
    assert_eq!(params_to_key_alteration(0x0203, 0, false), None);
    assert_eq!(params_to_key_alteration(0x4242, 7, false), None);
}

#[test]
fn irrelevant_events_pass_through_untouched() {
    let mut state: InputState<Quiet> = InputState::new();
    let _handle = Hotkey::new(&[Key::new(keys::A)]).blocking().register(&mut state);

    // Negative hook codes must pass through without touching anything.
    assert!(!process_hook_event(&mut state, -1, WM_KEYDOWN, keys::A as u32, false));
    assert_eq!(state.physical_states, KeyPattern::zero());

    // Injected events are filtered out, so a macro's own output cannot
    // retrigger it.
    assert!(!process_hook_event(&mut state, 0, WM_KEYDOWN, keys::A as u32, true));
    assert_eq!(state.physical_states, KeyPattern::zero());
}

#[test]
fn dispatch_tracks_the_physical_bitset() {
    let mut state: InputState<Quiet> = InputState::new();
    process_hook_event(&mut state, 0, WM_KEYDOWN, keys::A as u32, false);
    process_hook_event(&mut state, 0, WM_LBUTTONDOWN, 0, false);
    assert!(get_key_state(keys::A, &state.physical_states));
    assert!(get_key_state(keys::LBUTTON, &state.physical_states));
    assert!(!get_key_state(keys::SPACE, &state.physical_states));

    process_hook_event(&mut state, 0, WM_KEYUP, keys::A as u32, false);
    assert!(!get_key_state(keys::A, &state.physical_states));
    assert!(get_key_state(keys::LBUTTON, &state.physical_states));
}

#[test]
fn alterations_toggle_single_bits() {
    let mut state: InputState<Quiet> = InputState::new();
    handle_key_alteration(&mut state, 200, true);
    assert_eq!(state.physical_states, Key::new(200).as_pattern());
    handle_key_alteration(&mut state, 200, false);
    assert_eq!(state.physical_states, KeyPattern::zero());

    handle_virtual_key_alteration(&mut state, keys::A, true);
    assert_eq!(state.virtual_states, Key::new(keys::A).as_pattern());
    assert!(get_key_state_v(keys::A, &state.virtual_states));
    assert_eq!(state.physical_states, KeyPattern::zero());
    handle_virtual_key_alteration(&mut state, keys::A, false);
    assert_eq!(state.virtual_states, KeyPattern::zero());
}

#[test]
fn the_first_blocking_hotkey_suppresses_for_all() {
    let mut state: InputState<Quiet> = InputState::new();
    // Two hotkeys on the same key: one quiet and non-blocking, one blocking.
    let _first = Hotkey::new(&[Key::new(keys::A)]).on_press(Quiet).register(&mut state);
    let _second = Hotkey::new(&[Key::new(keys::A)])
        .on_press(Quiet)
        .blocking()
        .register(&mut state);

    // Both fire; the blocking one decides suppression.
    assert!(process_hook_event(&mut state, 0, WM_KEYDOWN, keys::A as u32, false));
    assert!(state.hotkeys[0].state);
    assert!(state.hotkeys[1].state);
}
