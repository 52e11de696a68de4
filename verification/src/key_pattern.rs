//! The 256-bit key bitset.
//!
//! Every key code owns one bit: codes 1 to 128 sit in the low half at
//! position `code - 1`, codes 129 to 255 in the high half at position
//! `code - 129`. Code 0 is reserved and owns no bit, and the topmost bit of
//! the high half answers to no code at all. The type doubles as a 256-bit
//! integer with the same wrapping addition and approximate multiplication as
//! [`crate::U256`].

use vstd::prelude::*;

use crate::bits::u128_bit;
use crate::key::{char_keys, Key};
use crate::wide;
use crate::wide::{full_radix, half_radix, wide_nat};

verus! {

/// A set of key codes as a 256-bit vector in two 128-bit halves.
#[derive(Debug, Clone, Copy, PartialEq, Eq, Structural)]
pub struct KeyPattern {
    pub high: u128,
    pub low: u128,
}

/// The one-bit pattern of a single key code; code 0 gives the empty pattern.
pub open spec fn single_key_pattern(code: u8) -> KeyPattern {
    if code == 0 {
        KeyPattern { high: 0, low: 0 }
    } else if code < 129 {
        KeyPattern { high: 0, low: (1u128 << ((code - 1) as u128)) }
    } else {
        KeyPattern { high: (1u128 << ((code - 129) as u128)), low: 0 }
    }
}

/// The OR of the one-bit patterns of a sequence of keys.
pub open spec fn or_fold_keys(s: Seq<Key>) -> KeyPattern
    decreases s.len(),
{
    if s.len() == 0 {
        KeyPattern { high: 0, low: 0 }
    } else {
        let rest = or_fold_keys(s.drop_last());
        let one = single_key_pattern(s.last().code);
        KeyPattern { high: rest.high | one.high, low: rest.low | one.low }
    }
}

/// The pattern that a character types: the OR of its key sequence.
pub open spec fn pattern_from_char(c: char) -> KeyPattern {
    or_fold_keys(char_keys(c))
}

/// The XOR of the one-bit patterns of a sequence of keys: the combination
/// pattern of a hotkey. A key that appears twice cancels itself out.
pub open spec fn xor_fold_keys(s: Seq<Key>) -> KeyPattern
    decreases s.len(),
{
    if s.len() == 0 {
        KeyPattern { high: 0, low: 0 }
    } else {
        let rest = xor_fold_keys(s.drop_last());
        let one = single_key_pattern(s.last().code);
        KeyPattern { high: rest.high ^ one.high, low: rest.low ^ one.low }
    }
}

impl KeyPattern {
    /// The numeric value of the pattern read as a 256-bit integer.
    pub open spec fn as_nat(self) -> nat {
        wide_nat(self.high, self.low)
    }

    /// Whether bit `i` of the 256-bit vector is set.
    pub open spec fn bit_at(self, i: int) -> bool {
        if 0 <= i < 128 {
            u128_bit(self.low, i as u128)
        } else if 128 <= i < 256 {
            u128_bit(self.high, (i - 128) as u128)
        } else {
            false
        }
    }

    /// Whether the pattern contains a key code. Code 0 owns no bit.
    pub open spec fn has_code(self, code: u8) -> bool {
        code >= 1 && self.bit_at(code - 1)
    }

    /// Whether every key of this pattern is also in `states`.
    pub open spec fn is_subset_of(self, states: KeyPattern) -> bool {
        self.high & states.high == self.high && self.low & states.low == self.low
    }

    /// The keys of this pattern with codes in `1 ..= n`, in ascending order.
    pub open spec fn keys_up_to(self, n: int) -> Seq<Key>
        decreases n,
    {
        if n <= 0 {
            Seq::empty()
        } else if self.has_code(n as u8) {
            self.keys_up_to(n - 1).push(Key { code: n as u8 })
        } else {
            self.keys_up_to(n - 1)
        }
    }

    /// All keys of the pattern, in ascending code order. The topmost bit of
    /// the high half has no code and never appears.
    pub open spec fn spec_keys(self) -> Seq<Key> {
        self.keys_up_to(255)
    }

    /// Create a new pattern from its two halves.
    pub fn new(high: u128, low: u128) -> (r: KeyPattern)
        ensures
            r == (KeyPattern { high, low }),
    {
        KeyPattern { high, low }
    }

    /// Create a new empty pattern.
    pub fn zero() -> (r: KeyPattern)
        ensures
            r == (KeyPattern { high: 0u128, low: 0u128 }),
            r.as_nat() == 0,
    {
        KeyPattern { high: 0, low: 0 }
    }

    /// The pattern each character of a string types, one per character.
    pub fn from_str(source: &str) -> (r: Vec<KeyPattern>)
        ensures
            r@.len() == source@.len(),
            forall|i: int| 0 <= i < source@.len() ==> r@[i] == pattern_from_char(source@[i]),
    {
        let mut patterns: Vec<KeyPattern> = Vec::new();
        for character in it: source.chars()
            invariant
                it.seq() == source@,
                patterns@.len() == it.index(),
                forall|i: int| 0 <= i < patterns@.len() ==> patterns@[i] == pattern_from_char(
                    source@[i],
                ),
        {
            patterns.push(KeyPattern::from_char(character));
        }
        patterns
    }

    /// The pattern that a character types: the OR of the one-bit patterns of
    /// its key sequence, or the empty pattern for an unknown character.
    pub fn from_char(character: char) -> (r: KeyPattern)
        ensures
            r == pattern_from_char(character),
    {
        let keys = Key::from_char(character);
        let mut acc = KeyPattern::zero();
        let mut i: usize = 0;
        while i < keys.len()
            invariant
                i <= keys@.len(),
                acc == or_fold_keys(keys@.take(i as int)),
            decreases keys@.len() - i,
        {
            let one = keys[i].as_pattern();
            acc = KeyPattern { high: acc.high | one.high, low: acc.low | one.low };
            proof {
                assert(keys@.take(i + 1).drop_last() =~= keys@.take(i as int));
                assert(keys@.take(i + 1).last() == keys@[i as int]);
            }
            i = i + 1;
        }
        proof {
            assert(keys@.take(keys@.len() as int) =~= keys@);
        }
        acc
    }

    /// Add two patterns read as 256-bit integers. Returns the sum modulo
    /// 2^256 and a true overflow flag, as [`crate::U256::overflowing_add`]
    /// does.
    pub fn overflowing_add(self, rhs: KeyPattern) -> (r: (KeyPattern, bool))
        ensures
            r.0.as_nat() == (self.as_nat() + rhs.as_nat()) % full_radix(),
            r.0 == (KeyPattern {
                high: wide::add_high_half(self.high, self.low, rhs.high, rhs.low),
                low: wide::add_low_half(self.low, rhs.low),
            }),
            r.1 == (self.as_nat() + rhs.as_nat() >= full_radix()),
    {
        let (high, low, overflow) = wide::wide_add(self.high, self.low, rhs.high, rhs.low);
        (KeyPattern { high, low }, overflow)
    }

    /// Multiply two patterns read as 256-bit integers, with the same
    /// approximate high half and flag as [`crate::U256::overflowing_mul`]:
    /// exact while both high halves are zero and the low product fits.
    pub fn overflowing_mul(self, rhs: KeyPattern) -> (r: (KeyPattern, bool))
        ensures
            r.0 == (KeyPattern {
                high: wide::mul_high_half(self.high, self.low, rhs.high, rhs.low),
                low: wide::mul_low_half(self.low, rhs.low),
            }),
            r.1 == (r.0.high != 0),
            (self.high == 0 && rhs.high == 0 && (self.low as nat * rhs.low as nat) < half_radix())
                ==> (r.0.as_nat() == self.as_nat() * rhs.as_nat() && !r.1),
    {
        let (high, low, overflow) = wide::wide_mul(self.high, self.low, rhs.high, rhs.low);
        (KeyPattern { high, low }, overflow)
    }

    /// Convert the pattern to the list of its keys, in ascending code order.
    pub fn as_keys(&self) -> (r: Vec<Key>)
        ensures
            r@ == self.spec_keys(),
    {
        let mut keys: Vec<Key> = Vec::new();
        let mut code: u16 = 1;
        while code <= 255
            invariant
                1 <= code <= 256,
                keys@ == self.keys_up_to(code - 1),
            decreases 256 - code,
        {
            let set = if code < 129 {
                (self.low >> ((code - 1) as u128)) & 1 == 1
            } else {
                (self.high >> ((code - 129) as u128)) & 1 == 1
            };
            if set {
                keys.push(Key::new(code as u8));
            }
            code = code + 1;
        }
        keys
    }

    /// This pattern restricted to the keys pressed in `states`.
    pub fn pressed_pattern(&self, states: &KeyPattern) -> (r: KeyPattern)
        ensures
            r == (KeyPattern { high: self.high & states.high, low: self.low & states.low }),
    {
        KeyPattern { high: self.high & states.high, low: self.low & states.low }
    }

    /// Whether every key of the pattern is pressed in `states`.
    pub fn all_pressed(&self, states: &KeyPattern) -> (r: bool)
        ensures
            r == self.is_subset_of(*states),
    {
        let pressed = self.pressed_pattern(states);
        pressed.high == self.high && pressed.low == self.low
    }
}

impl Default for KeyPattern {
    /// The empty pattern.
    fn default() -> (r: KeyPattern)
        ensures
            r == (KeyPattern { high: 0u128, low: 0u128 }),
    {
        KeyPattern::zero()
    }
}

impl core::ops::Add for KeyPattern {
    type Output = KeyPattern;

    /// Wrapping 256-bit addition; the overflow flag is discarded.
    fn add(self, addition: KeyPattern) -> (r: KeyPattern) {
        self.overflowing_add(addition).0
    }
}

impl vstd::std_specs::ops::AddSpecImpl for KeyPattern {
    open spec fn obeys_add_spec() -> bool {
        true
    }

    open spec fn add_req(self, rhs: KeyPattern) -> bool {
        true
    }

    open spec fn add_spec(self, rhs: KeyPattern) -> KeyPattern {
        KeyPattern {
            high: wide::add_high_half(self.high, self.low, rhs.high, rhs.low),
            low: wide::add_low_half(self.low, rhs.low),
        }
    }
}

impl core::ops::Mul for KeyPattern {
    type Output = KeyPattern;

    /// The approximate 256-bit multiplication; the flag is discarded.
    fn mul(self, multiplication: KeyPattern) -> (r: KeyPattern) {
        self.overflowing_mul(multiplication).0
    }
}

impl vstd::std_specs::ops::MulSpecImpl for KeyPattern {
    open spec fn obeys_mul_spec() -> bool {
        true
    }

    open spec fn mul_req(self, rhs: KeyPattern) -> bool {
        true
    }

    open spec fn mul_spec(self, rhs: KeyPattern) -> KeyPattern {
        KeyPattern {
            high: wide::mul_high_half(self.high, self.low, rhs.high, rhs.low),
            low: wide::mul_low_half(self.low, rhs.low),
        }
    }
}

impl core::ops::Shl<u64> for KeyPattern {
    type Output = KeyPattern;

    /// Left shift by an arbitrary amount, carrying bits across the halves;
    /// 256 or more clears the value.
    fn shl(self, shift: u64) -> (r: KeyPattern) {
        let (high, low) = wide::wide_shl(self.high, self.low, shift);
        KeyPattern { high, low }
    }
}

impl vstd::std_specs::ops::ShlSpecImpl<u64> for KeyPattern {
    open spec fn obeys_shl_spec() -> bool {
        true
    }

    open spec fn shl_req(self, rhs: u64) -> bool {
        true
    }

    open spec fn shl_spec(self, rhs: u64) -> KeyPattern {
        KeyPattern { high: wide::shl_halves(self.high, self.low, rhs).0, low: wide::shl_halves(
            self.high,
            self.low,
            rhs,
        ).1 }
    }
}

impl core::ops::Shr<u64> for KeyPattern {
    type Output = KeyPattern;

    /// Right shift by an arbitrary amount, carrying bits across the halves;
    /// 256 or more clears the value.
    fn shr(self, shift: u64) -> (r: KeyPattern) {
        let (high, low) = wide::wide_shr(self.high, self.low, shift);
        KeyPattern { high, low }
    }
}

impl vstd::std_specs::ops::ShrSpecImpl<u64> for KeyPattern {
    open spec fn obeys_shr_spec() -> bool {
        true
    }

    open spec fn shr_req(self, rhs: u64) -> bool {
        true
    }

    open spec fn shr_spec(self, rhs: u64) -> KeyPattern {
        KeyPattern { high: wide::shr_halves(self.high, self.low, rhs).0, low: wide::shr_halves(
            self.high,
            self.low,
            rhs,
        ).1 }
    }
}

impl core::ops::BitAnd<KeyPattern> for KeyPattern {
    type Output = KeyPattern;

    /// Set intersection: bitwise AND, half by half.
    fn bitand(self, compare: KeyPattern) -> (r: KeyPattern) {
        KeyPattern { high: self.high & compare.high, low: self.low & compare.low }
    }
}

impl vstd::std_specs::ops::BitAndSpecImpl<KeyPattern> for KeyPattern {
    open spec fn obeys_bitand_spec() -> bool {
        true
    }

    open spec fn bitand_req(self, rhs: KeyPattern) -> bool {
        true
    }

    open spec fn bitand_spec(self, rhs: KeyPattern) -> KeyPattern {
        KeyPattern { high: self.high & rhs.high, low: self.low & rhs.low }
    }
}

impl core::ops::BitAnd<Key> for KeyPattern {
    type Output = KeyPattern;

    /// Intersection with a single key's one-bit pattern.
    fn bitand(self, compare: Key) -> (r: KeyPattern) {
        let one = compare.as_pattern();
        KeyPattern { high: self.high & one.high, low: self.low & one.low }
    }
}

impl vstd::std_specs::ops::BitAndSpecImpl<Key> for KeyPattern {
    open spec fn obeys_bitand_spec() -> bool {
        true
    }

    open spec fn bitand_req(self, rhs: Key) -> bool {
        true
    }

    open spec fn bitand_spec(self, rhs: Key) -> KeyPattern {
        KeyPattern {
            high: self.high & single_key_pattern(rhs.code).high,
            low: self.low & single_key_pattern(rhs.code).low,
        }
    }
}

impl core::ops::BitOr<KeyPattern> for KeyPattern {
    type Output = KeyPattern;

    /// Set union: bitwise OR, half by half.
    fn bitor(self, compare: KeyPattern) -> (r: KeyPattern) {
        KeyPattern { high: self.high | compare.high, low: self.low | compare.low }
    }
}

impl vstd::std_specs::ops::BitOrSpecImpl<KeyPattern> for KeyPattern {
    open spec fn obeys_bitor_spec() -> bool {
        true
    }

    open spec fn bitor_req(self, rhs: KeyPattern) -> bool {
        true
    }

    open spec fn bitor_spec(self, rhs: KeyPattern) -> KeyPattern {
        KeyPattern { high: self.high | rhs.high, low: self.low | rhs.low }
    }
}

impl core::ops::BitOr<Key> for KeyPattern {
    type Output = KeyPattern;

    /// Union with a single key's one-bit pattern.
    fn bitor(self, compare: Key) -> (r: KeyPattern) {
        let one = compare.as_pattern();
        KeyPattern { high: self.high | one.high, low: self.low | one.low }
    }
}

impl vstd::std_specs::ops::BitOrSpecImpl<Key> for KeyPattern {
    open spec fn obeys_bitor_spec() -> bool {
        true
    }

    open spec fn bitor_req(self, rhs: Key) -> bool {
        true
    }

    open spec fn bitor_spec(self, rhs: Key) -> KeyPattern {
        KeyPattern {
            high: self.high | single_key_pattern(rhs.code).high,
            low: self.low | single_key_pattern(rhs.code).low,
        }
    }
}

impl core::ops::BitXor<KeyPattern> for KeyPattern {
    type Output = KeyPattern;

    /// Symmetric difference: bitwise XOR, half by half.
    fn bitxor(self, compare: KeyPattern) -> (r: KeyPattern) {
        KeyPattern { high: self.high ^ compare.high, low: self.low ^ compare.low }
    }
}

impl vstd::std_specs::ops::BitXorSpecImpl<KeyPattern> for KeyPattern {
    open spec fn obeys_bitxor_spec() -> bool {
        true
    }

    open spec fn bitxor_req(self, rhs: KeyPattern) -> bool {
        true
    }

    open spec fn bitxor_spec(self, rhs: KeyPattern) -> KeyPattern {
        KeyPattern { high: self.high ^ rhs.high, low: self.low ^ rhs.low }
    }
}

impl core::ops::BitXor<Key> for KeyPattern {
    type Output = KeyPattern;

    /// Symmetric difference with a single key's one-bit pattern.
    fn bitxor(self, compare: Key) -> (r: KeyPattern) {
        let one = compare.as_pattern();
        KeyPattern { high: self.high ^ one.high, low: self.low ^ one.low }
    }
}

impl vstd::std_specs::ops::BitXorSpecImpl<Key> for KeyPattern {
    open spec fn obeys_bitxor_spec() -> bool {
        true
    }

    open spec fn bitxor_req(self, rhs: Key) -> bool {
        true
    }

    open spec fn bitxor_spec(self, rhs: Key) -> KeyPattern {
        KeyPattern {
            high: self.high ^ single_key_pattern(rhs.code).high,
            low: self.low ^ single_key_pattern(rhs.code).low,
        }
    }
}

impl core::ops::Not for KeyPattern {
    type Output = KeyPattern;

    /// Set complement: bitwise NOT, half by half.
    fn not(self) -> (r: KeyPattern) {
        KeyPattern { high: !self.high, low: !self.low }
    }
}

impl vstd::std_specs::ops::NotSpecImpl for KeyPattern {
    open spec fn obeys_not_spec() -> bool {
        true
    }

    open spec fn not_req(self) -> bool {
        true
    }

    open spec fn not_spec(self) -> KeyPattern {
        KeyPattern { high: !self.high, low: !self.low }
    }
}

} // verus!
