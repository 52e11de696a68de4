//! Global input-state tracking and a hotkey-trigger engine.
//!
//! The heart of the crate is a 256-bit key bitset ([`KeyPattern`]) that maps
//! every key code to one bit, so that matching a multi-key combination against
//! the currently pressed keys is a single pair of word operations. On top of
//! it sit [`Key`] (a single key code), the hotkey registry and its
//! edge-triggered evaluation, and the decode logic of the low-level input
//! hook. OS-facing work (installing the hook, injecting input, sleeping)
//! lives outside the library and hands plain values in and out.

pub mod bits;
pub mod hotkey;
pub mod input_builder;
pub mod key;
pub mod key_hook;
pub mod key_pattern;
pub mod keys;
pub mod laws;
pub mod queue;
pub mod u256;
pub mod wide;

pub use hotkey::{Hotkey, HotkeyHandle, HotkeyHandler};
pub use input_builder::{InputBuilder, InputStep, KeyOrKeyPattern};
pub use key::Key;
pub use key_hook::InputState;
pub use key_pattern::KeyPattern;
pub use u256::U256;
