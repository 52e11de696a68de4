//! An unsigned 256-bit integer made of two `u128` halves.
//!
//! Addition wraps modulo 2^256 and reports a carry flag. Multiplication keeps
//! only the low cross terms plus a one-bit carry, so its high half is exact
//! only while the true product of the low halves fits in 128 bits and the
//! high halves are zero; its overflow flag merely reports a non-zero high
//! half. Both quirks are part of the type's contract.

use vstd::prelude::*;

use crate::wide;
use crate::wide::{full_radix, half_radix, wide_nat};

verus! {

/// An unsigned 256-bit integer as two 128-bit halves.
#[derive(Debug, Clone, Copy, PartialEq, Eq, Structural)]
pub struct U256 {
    pub high: u128,
    pub low: u128,
}

impl U256 {
    /// The numeric value of the whole 256-bit integer.
    pub open spec fn as_nat(self) -> nat {
        wide_nat(self.high, self.low)
    }

    /// Create a new 256-bit integer from its two halves.
    pub fn new(high: u128, low: u128) -> (r: U256)
        ensures
            r == (U256 { high, low }),
    {
        U256 { high, low }
    }

    /// Create a new zero-valued 256-bit integer.
    pub fn zero() -> (r: U256)
        ensures
            r == (U256 { high: 0u128, low: 0u128 }),
            r.as_nat() == 0,
    {
        U256 { high: 0, low: 0 }
    }

    /// Add two U256s. Returns the sum modulo 2^256 and a boolean overflow
    /// flag that is true exactly when the true sum reaches 2^256.
    pub fn overflowing_add(self, rhs: U256) -> (r: (U256, bool))
        ensures
            r.0.as_nat() == (self.as_nat() + rhs.as_nat()) % full_radix(),
            r.0 == (U256 {
                high: wide::add_high_half(self.high, self.low, rhs.high, rhs.low),
                low: wide::add_low_half(self.low, rhs.low),
            }),
            r.1 == (self.as_nat() + rhs.as_nat() >= full_radix()),
    {
        let (high, low, overflow) = wide::wide_add(self.high, self.low, rhs.high, rhs.low);
        (U256 { high, low }, overflow)
    }

    /// Multiply two U256s. The result keeps the low 128-bit product plus the
    /// two cross terms and a one-bit carry, so it equals the true product
    /// exactly when both high halves are zero and the low product fits in
    /// 128 bits. The reported flag is only "the high half of the result is
    /// non-zero", not true numeric overflow.
    pub fn overflowing_mul(self, rhs: U256) -> (r: (U256, bool))
        ensures
            r.0 == (U256 {
                high: wide::mul_high_half(self.high, self.low, rhs.high, rhs.low),
                low: wide::mul_low_half(self.low, rhs.low),
            }),
            r.0.low as nat == wide::mul_low(self.low, rhs.low),
            r.0.high as nat == wide::mul_high(self.high, self.low, rhs.high, rhs.low),
            r.1 == (r.0.high != 0),
            (self.high == 0 && rhs.high == 0 && (self.low as nat * rhs.low as nat) < half_radix())
                ==> (r.0.as_nat() == self.as_nat() * rhs.as_nat() && !r.1),
    {
        let (high, low, overflow) = wide::wide_mul(self.high, self.low, rhs.high, rhs.low);
        (U256 { high, low }, overflow)
    }
}

impl Default for U256 {
    /// The zero value.
    fn default() -> (r: U256)
        ensures
            r == (U256 { high: 0u128, low: 0u128 }),
    {
        U256::zero()
    }
}

impl core::ops::Add for U256 {
    type Output = U256;

    /// Wrapping 256-bit addition; the overflow flag is discarded.
    fn add(self, addition: U256) -> (r: U256) {
        self.overflowing_add(addition).0
    }
}

impl vstd::std_specs::ops::AddSpecImpl for U256 {
    open spec fn obeys_add_spec() -> bool {
        true
    }

    open spec fn add_req(self, rhs: U256) -> bool {
        true
    }

    open spec fn add_spec(self, rhs: U256) -> U256 {
        U256 {
            high: wide::add_high_half(self.high, self.low, rhs.high, rhs.low),
            low: wide::add_low_half(self.low, rhs.low),
        }
    }
}

impl core::ops::Mul for U256 {
    type Output = U256;

    /// The approximate 256-bit multiplication; the flag is discarded.
    fn mul(self, multiplication: U256) -> (r: U256) {
        self.overflowing_mul(multiplication).0
    }
}

impl vstd::std_specs::ops::MulSpecImpl for U256 {
    open spec fn obeys_mul_spec() -> bool {
        true
    }

    open spec fn mul_req(self, rhs: U256) -> bool {
        true
    }

    open spec fn mul_spec(self, rhs: U256) -> U256 {
        U256 {
            high: wide::mul_high_half(self.high, self.low, rhs.high, rhs.low),
            low: wide::mul_low_half(self.low, rhs.low),
        }
    }
}

impl core::ops::Shl<u64> for U256 {
    type Output = U256;

    /// Left shift by an arbitrary amount, carrying bits across the halves;
    /// 256 or more clears the value.
    fn shl(self, shift: u64) -> (r: U256) {
        let (high, low) = wide::wide_shl(self.high, self.low, shift);
        U256 { high, low }
    }
}

impl vstd::std_specs::ops::ShlSpecImpl<u64> for U256 {
    open spec fn obeys_shl_spec() -> bool {
        true
    }

    open spec fn shl_req(self, rhs: u64) -> bool {
        true
    }

    open spec fn shl_spec(self, rhs: u64) -> U256 {
        U256 { high: wide::shl_halves(self.high, self.low, rhs).0, low: wide::shl_halves(
            self.high,
            self.low,
            rhs,
        ).1 }
    }
}

impl core::ops::Shr<u64> for U256 {
    type Output = U256;

    /// Right shift by an arbitrary amount, carrying bits across the halves;
    /// 256 or more clears the value.
    fn shr(self, shift: u64) -> (r: U256) {
        let (high, low) = wide::wide_shr(self.high, self.low, shift);
        U256 { high, low }
    }
}

impl vstd::std_specs::ops::ShrSpecImpl<u64> for U256 {
    open spec fn obeys_shr_spec() -> bool {
        true
    }

    open spec fn shr_req(self, rhs: u64) -> bool {
        true
    }

    open spec fn shr_spec(self, rhs: u64) -> U256 {
        U256 { high: wide::shr_halves(self.high, self.low, rhs).0, low: wide::shr_halves(
            self.high,
            self.low,
            rhs,
        ).1 }
    }
}

impl core::ops::BitAnd for U256 {
    type Output = U256;

    /// Bitwise AND, half by half.
    fn bitand(self, compare: U256) -> (r: U256) {
        U256 { high: self.high & compare.high, low: self.low & compare.low }
    }
}

impl vstd::std_specs::ops::BitAndSpecImpl for U256 {
    open spec fn obeys_bitand_spec() -> bool {
        true
    }

    open spec fn bitand_req(self, rhs: U256) -> bool {
        true
    }

    open spec fn bitand_spec(self, rhs: U256) -> U256 {
        U256 { high: self.high & rhs.high, low: self.low & rhs.low }
    }
}

impl core::ops::BitOr for U256 {
    type Output = U256;

    /// Bitwise OR, half by half.
    fn bitor(self, compare: U256) -> (r: U256) {
        U256 { high: self.high | compare.high, low: self.low | compare.low }
    }
}

impl vstd::std_specs::ops::BitOrSpecImpl for U256 {
    open spec fn obeys_bitor_spec() -> bool {
        true
    }

    open spec fn bitor_req(self, rhs: U256) -> bool {
        true
    }

    open spec fn bitor_spec(self, rhs: U256) -> U256 {
        U256 { high: self.high | rhs.high, low: self.low | rhs.low }
    }
}

impl core::ops::BitXor for U256 {
    type Output = U256;

    /// Bitwise XOR, half by half.
    fn bitxor(self, compare: U256) -> (r: U256) {
        U256 { high: self.high ^ compare.high, low: self.low ^ compare.low }
    }
}

impl vstd::std_specs::ops::BitXorSpecImpl for U256 {
    open spec fn obeys_bitxor_spec() -> bool {
        true
    }

    open spec fn bitxor_req(self, rhs: U256) -> bool {
        true
    }

    open spec fn bitxor_spec(self, rhs: U256) -> U256 {
        U256 { high: self.high ^ rhs.high, low: self.low ^ rhs.low }
    }
}

impl core::ops::Not for U256 {
    type Output = U256;

    /// Bitwise complement, half by half.
    fn not(self) -> (r: U256) {
        U256 { high: !self.high, low: !self.low }
    }
}

impl vstd::std_specs::ops::NotSpecImpl for U256 {
    open spec fn obeys_not_spec() -> bool {
        true
    }

    open spec fn not_req(self) -> bool {
        true
    }

    open spec fn not_spec(self) -> U256 {
        U256 { high: !self.high, low: !self.low }
    }
}

} // verus!
