//! The key codes the library knows by name.
//!
//! Codes follow the Windows virtual-key numbering: mouse buttons sit below
//! code 5, and every code fits in one byte. Code 0 is reserved and maps to
//! the empty pattern.

use vstd::prelude::*;

verus! {

/// Left mouse button.
pub const LBUTTON: u8 = 1;

/// Right mouse button.
pub const RBUTTON: u8 = 2;

/// Middle mouse button.
pub const MBUTTON: u8 = 3;

/// Tabulator key.
pub const TAB: u8 = 9;

/// Return key.
pub const ENTER: u8 = 13;

/// Side-agnostic shift key.
pub const SHIFT: u8 = 16;

/// Side-agnostic control key.
pub const CONTROL: u8 = 17;

/// Side-agnostic alt key.
pub const ALT: u8 = 18;

/// Space bar.
pub const SPACE: u8 = 32;

/// The digit row key `0`; the other digits follow in order.
pub const KEY_0: u8 = 48;

/// The letter key `A`; the other letters follow in alphabetical order.
pub const A: u8 = 65;

/// Left Windows key.
pub const LWIN: u8 = 91;

/// Right Windows key.
pub const RWIN: u8 = 92;

/// Left shift key.
pub const LSHIFT: u8 = 160;

/// Right shift key.
pub const RSHIFT: u8 = 161;

/// Left control key.
pub const LCONTROL: u8 = 162;

/// Right control key.
pub const RCONTROL: u8 = 163;

/// Left alt key.
pub const LALT: u8 = 164;

/// Right alt key.
pub const RALT: u8 = 165;

/// Semicolon / colon key.
pub const COLON: u8 = 186;

/// Equals / plus key.
pub const ADD: u8 = 187;

/// Comma / less-than key.
pub const COMMA: u8 = 188;

/// Minus / underscore key.
pub const SUBTRACT: u8 = 189;

/// Backtick / tilde key.
pub const TILDA: u8 = 192;

/// Opening square bracket key.
pub const BLOCK_OPEN: u8 = 219;

/// Closing square bracket key.
pub const BLOCK_CLOSE: u8 = 221;

/// Apostrophe / double-quote key.
pub const QUOTE: u8 = 222;

} // verus!
