//! The dispatch logic of the low-level input hook.
//!
//! The OS delivers every system-wide keyboard and mouse event to a hook
//! callback, tagged with a hook code and with whether the event was
//! synthetically injected. The logic here decodes that event into a key code
//! and a press/release flag, updates the physical key-state bitset, and
//! evaluates every registered hotkey, returning whether the event should be
//! suppressed. Installing the hook, reading the OS structures and forwarding
//! unblocked events stay outside the library; they hand in plain values.

use vstd::prelude::*;

use crate::bits::{lemma_u128_and_zero, lemma_u128_bit_mask_test};
use crate::hotkey::{hotkey_blocks, hotkey_evolution, Hotkey, HotkeyHandler};
use crate::key::Key;
use crate::key_pattern::{single_key_pattern, KeyPattern};
use crate::keys;

verus! {

/// Hook message number of a physical key press.
pub const WM_KEYDOWN: u32 = 0x0100;

/// Hook message number of a physical key release.
pub const WM_KEYUP: u32 = 0x0101;

/// Hook message number of the left mouse button going down.
pub const WM_LBUTTONDOWN: u32 = 0x0201;

/// Hook message number of the left mouse button going up.
pub const WM_LBUTTONUP: u32 = 0x0202;

/// Hook message number of the right mouse button going down.
pub const WM_RBUTTONDOWN: u32 = 0x0204;

/// Hook message number of the right mouse button going up.
pub const WM_RBUTTONUP: u32 = 0x0205;

/// Hook message number of the middle mouse button going down.
pub const WM_MBUTTONDOWN: u32 = 0x0207;

/// Hook message number of the middle mouse button going up.
pub const WM_MBUTTONUP: u32 = 0x0208;

/// The whole mutable state of the input subsystem: the two key-state
/// bitsets, the hotkey registry and the id generator. One thread — the
/// dispatch thread running the hook callback — must be the single writer of
/// the bitsets and of every hotkey's enabled and match state; other threads
/// reach hotkeys only through handles, which merely queue requests.
pub struct InputState<H> {
    /// Keys physically held right now, as observed by the hook.
    pub physical_states: KeyPattern,
    /// Keys held because input was injected programmatically.
    pub virtual_states: KeyPattern,
    /// The registered hotkeys, in registration order.
    pub hotkeys: Vec<Hotkey<H>>,
    /// The id the next registration receives.
    pub next_id: u64,
}

impl<H: HotkeyHandler> InputState<H> {
    /// Registry ids are unique and sit below the id generator.
    pub open spec fn wf(self) -> bool {
        &&& forall|i: int, j: int|
            #![trigger self.hotkeys@[i].id, self.hotkeys@[j].id]
            0 <= i < j < self.hotkeys@.len() ==> self.hotkeys@[i].id != self.hotkeys@[j].id
        &&& forall|i: int|
            0 <= i < self.hotkeys@.len() ==> #[trigger] self.hotkeys@[i].id < self.next_id
    }

    /// A fresh input state: nothing pressed, nothing registered.
    pub fn new() -> (r: InputState<H>)
        ensures
            r.wf(),
            r.physical_states == (KeyPattern { high: 0u128, low: 0u128 }),
            r.virtual_states == (KeyPattern { high: 0u128, low: 0u128 }),
            r.hotkeys@.len() == 0,
            r.next_id == 1,
    {
        InputState {
            physical_states: KeyPattern::zero(),
            virtual_states: KeyPattern::zero(),
            hotkeys: Vec::new(),
            next_id: 1,
        }
    }
}

/// The key alteration that a hook event describes: the pressed or released
/// key code, or nothing for injected events and unknown messages. Keyboard
/// events carry the virtual-key code; mouse button messages map to the
/// button codes.
pub open spec fn spec_key_alteration(message: u32, key_code: u32, injected: bool) -> Option<
    (u8, bool),
> {
    if injected {
        None
    } else if message == WM_KEYDOWN {
        Some(((key_code & 0xFF) as u8, true))
    } else if message == WM_KEYUP {
        Some(((key_code & 0xFF) as u8, false))
    } else if message == WM_LBUTTONDOWN {
        Some((keys::LBUTTON, true))
    } else if message == WM_LBUTTONUP {
        Some((keys::LBUTTON, false))
    } else if message == WM_RBUTTONDOWN {
        Some((keys::RBUTTON, true))
    } else if message == WM_RBUTTONUP {
        Some((keys::RBUTTON, false))
    } else if message == WM_MBUTTONDOWN {
        Some((keys::MBUTTON, true))
    } else if message == WM_MBUTTONUP {
        Some((keys::MBUTTON, false))
    } else {
        None
    }
}

/// What a whole hook event asks of the engine: nothing for negative hook
/// codes, which must pass through untouched, otherwise the decoded
/// alteration.
pub open spec fn spec_hook_decision(
    hook_code: i32,
    message: u32,
    key_code: u32,
    injected: bool,
) -> Option<(u8, bool)> {
    if hook_code < 0 {
        None
    } else {
        spec_key_alteration(message, key_code, injected)
    }
}

/// Decode a hook event into a key code and a press flag. Injected events and
/// unrecognized messages decode to nothing and must pass through untouched.
pub fn params_to_key_alteration(message: u32, key_code: u32, injected: bool) -> (r: Option<
    (u8, bool),
>)
    ensures
        r == spec_key_alteration(message, key_code, injected),
{
    if injected {
        return None;
    }
    if message == WM_KEYDOWN {
        Some(((key_code & 0xFF) as u8, true))
    } else if message == WM_KEYUP {
        Some(((key_code & 0xFF) as u8, false))
    } else if message == WM_LBUTTONDOWN {
        Some((keys::LBUTTON, true))
    } else if message == WM_LBUTTONUP {
        Some((keys::LBUTTON, false))
    } else if message == WM_RBUTTONDOWN {
        Some((keys::RBUTTON, true))
    } else if message == WM_RBUTTONUP {
        Some((keys::RBUTTON, false))
    } else if message == WM_MBUTTONDOWN {
        Some((keys::MBUTTON, true))
    } else if message == WM_MBUTTONUP {
        Some((keys::MBUTTON, false))
    } else {
        None
    }
}

/// A key-state bitset after one key goes down or up: the key's bit is set
/// on a press and cleared on a release.
pub open spec fn pattern_with_alteration(states: KeyPattern, key_code: u8, down: bool) -> KeyPattern {
    let one = single_key_pattern(key_code);
    if down {
        KeyPattern { high: states.high | one.high, low: states.low | one.low }
    } else {
        KeyPattern { high: states.high & !one.high, low: states.low & !one.low }
    }
}

/// Record a physical key going down or up in the physical bitset.
pub fn handle_key_alteration<H: HotkeyHandler>(state: &mut InputState<H>, key_code: u8, down: bool)
    ensures
        final(state).physical_states == pattern_with_alteration(
            old(state).physical_states,
            key_code,
            down,
        ),
        final(state).virtual_states == old(state).virtual_states,
        final(state).hotkeys == old(state).hotkeys,
        final(state).next_id == old(state).next_id,
{
    let one = Key::new(key_code).as_pattern();
    if down {
        state.physical_states = KeyPattern {
            high: state.physical_states.high | one.high,
            low: state.physical_states.low | one.low,
        };
    } else {
        state.physical_states = KeyPattern {
            high: state.physical_states.high & !one.high,
            low: state.physical_states.low & !one.low,
        };
    }
}

/// Record an injected key going down or up in the virtual bitset.
pub fn handle_virtual_key_alteration<H: HotkeyHandler>(
    state: &mut InputState<H>,
    key_code: u8,
    down: bool,
)
    ensures
        final(state).virtual_states == pattern_with_alteration(
            old(state).virtual_states,
            key_code,
            down,
        ),
        final(state).physical_states == old(state).physical_states,
        final(state).hotkeys == old(state).hotkeys,
        final(state).next_id == old(state).next_id,
{
    let one = Key::new(key_code).as_pattern();
    if down {
        state.virtual_states = KeyPattern {
            high: state.virtual_states.high | one.high,
            low: state.virtual_states.low | one.low,
        };
    } else {
        state.virtual_states = KeyPattern {
            high: state.virtual_states.high & !one.high,
            low: state.virtual_states.low & !one.low,
        };
    }
}

/// Whether a key is down in the given physical key-state bitset.
pub fn get_key_state(key_code: u8, states: &KeyPattern) -> (r: bool)
    ensures
        r == states.has_code(key_code),
{
    let one = Key::new(key_code).as_pattern();
    let r = (states.high & one.high) != 0 || (states.low & one.low) != 0;
    proof {
        lemma_u128_and_zero(states.high);
        lemma_u128_and_zero(states.low);
        if 1 <= key_code && key_code < 129 {
            lemma_u128_bit_mask_test(states.low, (key_code - 1) as u128);
        } else if key_code >= 129 {
            lemma_u128_bit_mask_test(states.high, (key_code - 129) as u128);
        }
    }
    r
}

/// Whether a key is down in the given virtual (programmatically pressed)
/// key-state bitset.
pub fn get_key_state_v(key_code: u8, states: &KeyPattern) -> (r: bool)
    ensures
        r == states.has_code(key_code),
{
    get_key_state(key_code, states)
}

/// Dispatch one hook event: decode it, record the key alteration in the
/// physical bitset, and evaluate every hotkey in registration order. Returns
/// whether the event should be suppressed — true exactly when some hotkey
/// fired a transition and is blocking. Negative hook codes, injected events
/// and unknown messages change nothing and pass through.
#[verifier::loop_isolation(false)]
pub fn process_hook_event<H: HotkeyHandler>(
    state: &mut InputState<H>,
    hook_code: i32,
    message: u32,
    key_code: u32,
    injected: bool,
) -> (blocked: bool)
    requires
        old(state).wf(),
    ensures
        final(state).wf(),
        spec_hook_decision(hook_code, message, key_code, injected) is None ==> (
            final(state).physical_states == old(state).physical_states
            && final(state).virtual_states == old(state).virtual_states
            && final(state).hotkeys == old(state).hotkeys
            && final(state).next_id == old(state).next_id
            && blocked == false),
        spec_hook_decision(hook_code, message, key_code, injected) matches Some((code, down)) ==> ({
            &&& final(state).physical_states == pattern_with_alteration(
                old(state).physical_states,
                code,
                down,
            )
            &&& final(state).virtual_states == old(state).virtual_states
            &&& final(state).next_id == old(state).next_id
            &&& final(state).hotkeys@.len() == old(state).hotkeys@.len()
            &&& forall|i: int|
                0 <= i < final(state).hotkeys@.len() ==> hotkey_evolution(
                    old(state).hotkeys@[i],
                    #[trigger] final(state).hotkeys@[i],
                    final(state).physical_states,
                )
            &&& blocked == exists|i: int|
                0 <= i < final(state).hotkeys@.len() && hotkey_blocks(
                    old(state).hotkeys@[i],
                    #[trigger] final(state).hotkeys@[i],
                )
        }),
{
    if hook_code < 0 {
        return false;
    }
    let decoded = params_to_key_alteration(message, key_code, injected);
    if let Some((code, down)) = decoded {
        handle_key_alteration(state, code, down);
        let pattern = state.physical_states;
        let n = state.hotkeys.len();
        let mut blocked = false;
        let ghost mut witness: int = 0;
        let mut i: usize = 0;
        while i < n
            invariant
                i <= n,
                n == state.hotkeys@.len(),
                state.hotkeys@.len() == old(state).hotkeys@.len(),
                state.physical_states == pattern,
                state.virtual_states == old(state).virtual_states,
                state.next_id == old(state).next_id,
                forall|j: int|
                    0 <= j < i ==> hotkey_evolution(
                        old(state).hotkeys@[j],
                        #[trigger] state.hotkeys@[j],
                        pattern,
                    ),
                forall|j: int| i <= j < n ==> state.hotkeys@[j] == old(state).hotkeys@[j],
                blocked ==> 0 <= witness < i && hotkey_blocks(
                    old(state).hotkeys@[witness],
                    state.hotkeys@[witness],
                ),
                !blocked ==> forall|j: int|
                    0 <= j < i ==> !hotkey_blocks(
                        old(state).hotkeys@[j],
                        #[trigger] state.hotkeys@[j],
                    ),
            decreases n - i,
        {
            let blocked_here = state.hotkeys[i].update_state(&pattern);
            proof {
                if blocked_here {
                    assert(hotkey_blocks(old(state).hotkeys@[i as int], state.hotkeys@[i as int]));
                }
            }
            if blocked_here {
                blocked = true;
                proof {
                    witness = i as int;
                }
            }
            i = i + 1;
        }
        proof {
            assert forall|i: int, j: int|
                #![trigger state.hotkeys@[i].id, state.hotkeys@[j].id]
                0 <= i < j < state.hotkeys@.len() implies state.hotkeys@[i].id
                != state.hotkeys@[j].id by {
                assert(hotkey_evolution(old(state).hotkeys@[i], state.hotkeys@[i], pattern));
                assert(hotkey_evolution(old(state).hotkeys@[j], state.hotkeys@[j], pattern));
            }
            assert forall|i: int|
                0 <= i < state.hotkeys@.len() implies #[trigger] state.hotkeys@[i].id
                < state.next_id by {
                assert(hotkey_evolution(old(state).hotkeys@[i], state.hotkeys@[i], pattern));
            }
        }
        blocked
    } else {
        false
    }
}

} // verus!
