//! A single key code and its reading as a one-bit pattern.

use vstd::prelude::*;

use crate::key_pattern::{single_key_pattern, KeyPattern};
use crate::keys;

verus! {

/// One byte-sized key code, naming a keyboard key or a mouse button.
#[derive(Debug, Clone, Copy, PartialEq, Eq, Structural)]
pub struct Key {
    pub code: u8,
}

/// A one-key sequence.
pub open spec fn one_key(code: u8) -> Seq<Key> {
    seq![Key { code }]
}

/// A key reached while shift is held.
pub open spec fn shifted_key(code: u8) -> Seq<Key> {
    seq![Key { code: keys::SHIFT }, Key { code }]
}

/// The key sequence that types a character: letters and digits map to their
/// key, characters that sit on the shifted layer come with a leading shift
/// key, and anything the table does not know maps to no keys at all.
pub open spec fn char_keys(c: char) -> Seq<Key> {
    let ci = c as u32;
    if 97 <= ci && ci <= 122 {
        one_key(((keys::A as u32) + (ci - 97)) as u8)
    } else if 65 <= ci && ci <= 90 {
        shifted_key(((keys::A as u32) + (ci - 65)) as u8)
    } else if 48 <= ci && ci <= 57 {
        one_key(((keys::KEY_0 as u32) + (ci - 48)) as u8)
    } else if c == '!' {
        shifted_key(keys::KEY_0)
    } else if c == '@' {
        shifted_key((keys::KEY_0 + 1) as u8)
    } else if c == '#' {
        shifted_key((keys::KEY_0 + 2) as u8)
    } else if c == '$' {
        shifted_key((keys::KEY_0 + 3) as u8)
    } else if c == '%' {
        shifted_key((keys::KEY_0 + 4) as u8)
    } else if c == '^' {
        shifted_key((keys::KEY_0 + 5) as u8)
    } else if c == '&' {
        shifted_key((keys::KEY_0 + 6) as u8)
    } else if c == '*' {
        shifted_key((keys::KEY_0 + 7) as u8)
    } else if c == '(' {
        shifted_key((keys::KEY_0 + 8) as u8)
    } else if c == ')' {
        shifted_key((keys::KEY_0 + 9) as u8)
    } else if c == ' ' {
        one_key(keys::SPACE)
    } else if c == ',' {
        one_key(keys::COMMA)
    } else if c == '<' {
        shifted_key(keys::COMMA)
    } else if c == ';' {
        one_key(keys::COLON)
    } else if c == ':' {
        shifted_key(keys::COLON)
    } else if c == '\'' {
        one_key(keys::QUOTE)
    } else if c == '"' {
        shifted_key(keys::QUOTE)
    } else if c == '`' {
        one_key(keys::TILDA)
    } else if c == '~' {
        shifted_key(keys::TILDA)
    } else if c == '[' {
        one_key(keys::BLOCK_OPEN)
    } else if c == '{' {
        shifted_key(keys::BLOCK_OPEN)
    } else if c == ']' {
        one_key(keys::BLOCK_CLOSE)
    } else if c == '}' {
        shifted_key(keys::BLOCK_CLOSE)
    } else if c == '-' {
        one_key(keys::SUBTRACT)
    } else if c == '_' {
        shifted_key(keys::SUBTRACT)
    } else if c == '=' {
        one_key(keys::ADD)
    } else if c == '+' {
        shifted_key(keys::ADD)
    } else if c == '\t' {
        one_key(keys::TAB)
    } else if c == '\n' {
        one_key(keys::ENTER)
    } else if c == '\r' {
        one_key(keys::ENTER)
    } else {
        Seq::empty()
    }
}

/// Whether the code names a key that modifies other keys rather than acting
/// on its own: the shift, control, alt and Windows keys, in their
/// side-agnostic and side-specific forms.
pub open spec fn is_modifier_code(code: u8) -> bool {
    ||| code == keys::SHIFT
    ||| code == keys::LSHIFT
    ||| code == keys::RSHIFT
    ||| code == keys::CONTROL
    ||| code == keys::LCONTROL
    ||| code == keys::RCONTROL
    ||| code == keys::ALT
    ||| code == keys::RALT
    ||| code == keys::LALT
    ||| code == keys::LWIN
    ||| code == keys::RWIN
}

impl Key {
    /// Create a new key.
    pub fn new(code: u8) -> (r: Key)
        ensures
            r == (Key { code }),
    {
        Key { code }
    }

    /// The key sequences that type each character of a string, one sequence
    /// per character.
    pub fn from_str(source: &str) -> (r: Vec<Vec<Key>>)
        ensures
            r@.len() == source@.len(),
            forall|i: int| 0 <= i < source@.len() ==> #[trigger] r@[i]@ == char_keys(source@[i]),
    {
        let mut rows: Vec<Vec<Key>> = Vec::new();
        for character in it: source.chars()
            invariant
                it.seq() == source@,
                rows@.len() == it.index(),
                forall|i: int| 0 <= i < rows@.len() ==> #[trigger] rows@[i]@ == char_keys(
                    source@[i],
                ),
        {
            rows.push(Key::from_char(character));
        }
        rows
    }

    /// The key sequence that types a character; empty when the table does
    /// not know the character.
    pub fn from_char(character: char) -> (r: Vec<Key>)
        ensures
            r@ == char_keys(character),
    {
        let ci = character as u32;

        // Lowercase letters.
        if ci >= 97 && ci <= 122 {
            return vec![Key::new(keys::A + (ci - 97) as u8)];
        }
        // Uppercase letters: shift plus the letter key.
        if ci >= 65 && ci <= 90 {
            return vec![Key::new(keys::SHIFT), Key::new(keys::A + (ci - 65) as u8)];
        }
        // Digits.
        if ci >= 48 && ci <= 57 {
            return vec![Key::new(keys::KEY_0 + (ci - 48) as u8)];
        }
        // Characters on the shifted digit row.
        let shifted_digit: Option<u8> = match character {
            '!' => Some(0),
            '@' => Some(1),
            '#' => Some(2),
            '$' => Some(3),
            '%' => Some(4),
            '^' => Some(5),
            '&' => Some(6),
            '*' => Some(7),
            '(' => Some(8),
            ')' => Some(9),
            _ => None,
        };
        if let Some(digit_index) = shifted_digit {
            return vec![Key::new(keys::SHIFT), Key::new(keys::KEY_0 + digit_index)];
        }
        // Punctuation and whitespace.
        match character {
            ' ' => vec![Key::new(keys::SPACE)],
            ',' => vec![Key::new(keys::COMMA)],
            '<' => vec![Key::new(keys::SHIFT), Key::new(keys::COMMA)],
            ';' => vec![Key::new(keys::COLON)],
            ':' => vec![Key::new(keys::SHIFT), Key::new(keys::COLON)],
            '\'' => vec![Key::new(keys::QUOTE)],
            '"' => vec![Key::new(keys::SHIFT), Key::new(keys::QUOTE)],
            '`' => vec![Key::new(keys::TILDA)],
            '~' => vec![Key::new(keys::SHIFT), Key::new(keys::TILDA)],
            '[' => vec![Key::new(keys::BLOCK_OPEN)],
            '{' => vec![Key::new(keys::SHIFT), Key::new(keys::BLOCK_OPEN)],
            ']' => vec![Key::new(keys::BLOCK_CLOSE)],
            '}' => vec![Key::new(keys::SHIFT), Key::new(keys::BLOCK_CLOSE)],
            '-' => vec![Key::new(keys::SUBTRACT)],
            '_' => vec![Key::new(keys::SHIFT), Key::new(keys::SUBTRACT)],
            '=' => vec![Key::new(keys::ADD)],
            '+' => vec![Key::new(keys::SHIFT), Key::new(keys::ADD)],
            '\t' => vec![Key::new(keys::TAB)],
            '\n' => vec![Key::new(keys::ENTER)],
            '\r' => vec![Key::new(keys::ENTER)],
            _ => Vec::new(),
        }
    }

    /// Get the key code of the key.
    pub fn key_code(&self) -> (r: u8)
        ensures
            r == self.code,
    {
        self.code
    }

    /// Return the key as a one-bit pattern; code 0 gives the empty pattern.
    pub fn as_pattern(&self) -> (r: KeyPattern)
        ensures
            r == single_key_pattern(self.code),
    {
        if self.code == 0 {
            KeyPattern::new(0, 0)
        } else if self.code < 129 {
            KeyPattern::new(0, 1u128 << ((self.code - 1) as u128))
        } else {
            KeyPattern::new(1u128 << ((self.code - 129) as u128), 0)
        }
    }

    /// Whether the key is down in the given pressed-key state.
    pub fn down(&self, states: &KeyPattern) -> (r: bool)
        ensures
            r == states.has_code(self.code),
    {
        crate::key_hook::get_key_state(self.code, states)
    }

    /// Whether this key is a modifier key: one that usually does nothing on
    /// its own but modifies other keys, such as shift or control.
    pub fn is_modifier_key(&self) -> (r: bool)
        ensures
            r == is_modifier_code(self.code),
    {
        self.code == keys::SHIFT || self.code == keys::LSHIFT || self.code == keys::RSHIFT
            || self.code == keys::CONTROL || self.code == keys::LCONTROL || self.code
            == keys::RCONTROL || self.code == keys::ALT || self.code == keys::RALT || self.code
            == keys::LALT || self.code == keys::LWIN || self.code == keys::RWIN
    }
}

} // verus!
