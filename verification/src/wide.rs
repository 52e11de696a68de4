//! Arithmetic and bit-level helpers shared by the two 256-bit value types.
//!
//! A 256-bit value is stored as two `u128` halves. The functions here state
//! and prove, once, what the half-based implementations of addition,
//! multiplication and the shifts compute, so that both `U256` and
//! `KeyPattern` can reuse them.

use vstd::prelude::*;
use vstd::arithmetic::div_mod::{
    lemma_add_mod_noop, lemma_fundamental_div_mod, lemma_fundamental_div_mod_converse,
    lemma_mod_bound, lemma_small_mod,
};
use vstd::arithmetic::mul::lemma_mul_inequality;

verus! {

/// 2^128, the weight of the high half.
pub open spec fn half_radix() -> nat {
    0x1_0000_0000_0000_0000_0000_0000_0000_0000nat
}

/// 2^256, the modulus of 256-bit arithmetic.
pub open spec fn full_radix() -> nat {
    half_radix() * half_radix()
}

/// The numeric value of a 256-bit quantity given as two halves.
pub open spec fn wide_nat(high: u128, low: u128) -> nat {
    high as nat * half_radix() + low as nat
}

/// The carry out of the low halves when adding.
pub open spec fn add_carry(al: u128, bl: u128) -> nat {
    if al + bl >= half_radix() {
        1nat
    } else {
        0nat
    }
}

/// Add two 256-bit values given as halves. Returns high half, low half and
/// the overflow flag: true exactly when the true sum reaches 2^256. The flag
/// gathers the carries of both half additions, including the rare wrap of
/// the right high half while it absorbs the low carry.
pub(crate) fn wide_add(ah: u128, al: u128, bh: u128, bl: u128) -> (r: (u128, u128, bool))
    ensures
        wide_nat(r.0, r.1) == (wide_nat(ah, al) + wide_nat(bh, bl)) % full_radix(),
        r.0 == add_high_half(ah, al, bh, bl),
        r.1 == add_low_half(al, bl),
        r.2 == (wide_nat(ah, al) + wide_nat(bh, bl) >= full_radix()),
{
    let low = al.wrapping_add(bl);
    let carry: u128 = if low < al {
        1
    } else {
        0
    };
    let t = bh.wrapping_add(carry);
    let high = ah.wrapping_add(t);
    let overflow = t < bh || high < ah;
    proof {
        lemma_wide_add_correct(ah, al, bh, bl, high, low, t, carry, overflow);
    }
    (high, low, overflow)
}

proof fn lemma_wide_add_correct(
    ah: u128,
    al: u128,
    bh: u128,
    bl: u128,
    high: u128,
    low: u128,
    t: u128,
    carry: u128,
    overflow: bool,
)
    requires
        low == vstd::wrapping::u128_specs::wrapping_add(al, bl),
        carry == (if low < al {
            1u128
        } else {
            0u128
        }),
        t == vstd::wrapping::u128_specs::wrapping_add(bh, carry),
        high == vstd::wrapping::u128_specs::wrapping_add(ah, t),
        overflow == (t < bh || high < ah),
    ensures
        wide_nat(high, low) == (wide_nat(ah, al) + wide_nat(bh, bl)) % full_radix(),
        carry as nat == add_carry(al, bl),
        overflow == (wide_nat(ah, al) + wide_nat(bh, bl) >= full_radix()),
{
    let r = half_radix() as int;
    // The low half and its carry.
    assert(carry == add_carry(al, bl));
    assert(low == al + bl - carry * r);
    // The intermediate and the final high half are modular sums.
    assert(t == (bh + carry) % r) by {
        if bh + carry < r {
            lemma_small_mod((bh + carry) as nat, r as nat);
        } else {
            lemma_fundamental_div_mod_converse(bh + carry, r, 1, bh + carry - r);
        }
    }
    assert(high == (ah + t) % r) by {
        if ah + t < r {
            lemma_small_mod((ah + t) as nat, r as nat);
        } else {
            lemma_fundamental_div_mod_converse(ah + t, r, 1, ah + t - r);
        }
    }
    let hsum = ah + bh + carry;
    assert(high == hsum % r) by {
        lemma_add_mod_noop(ah as int, bh + carry, r);
        lemma_small_mod(ah as nat, r as nat);
    }
    // The flag is set exactly when the carries push the high sum to the
    // radix: either absorbing the low carry already wrapped the right high
    // half, or the final high-half addition wrapped.
    assert((t < bh) == (bh + carry >= r));
    assert(overflow == (hsum >= r)) by {
        if bh + carry >= r {
            assert(hsum >= r);
        } else {
            assert(t == bh + carry);
            assert((high < ah) == (ah + t >= r));
        }
    }
    // The value identity.
    let total = wide_nat(ah, al) + wide_nat(bh, bl);
    assert(total == hsum * r + low) by (nonlinear_arith)
        requires
            total == ah * r + al + bh * r + bl,
            hsum == ah + bh + carry,
            al + bl == carry * r + low,
    ;
    lemma_fundamental_div_mod(hsum, r);
    let q = hsum / r;
    assert(hsum == q * r + high);
    assert(q >= 0) by (nonlinear_arith)
        requires
            q * r == hsum - high,
            hsum - high > -r,
            r > 0,
    ;
    assert(total == q * (r * r) + (high * r + low)) by (nonlinear_arith)
        requires
            total == hsum * r + low,
            hsum == q * r + high,
    ;
    assert(high * r + low < r * r) by {
        lemma_mul_inequality(high as int, r - 1, r);
    }
    lemma_fundamental_div_mod_converse(total as int, r * r, q, high * r + low);
    assert(wide_nat(high, low) == total % full_radix());
    // A high sum at the radix is exactly a total at the radix squared.
    assert((q >= 1) == (hsum >= r)) by (nonlinear_arith)
        requires
            hsum == q * r + high,
            0 <= high < r,
            r > 0,
            q >= 0,
    ;
    assert((total >= r * r) == (q >= 1)) by (nonlinear_arith)
        requires
            total == q * (r * r) + (high * r + low),
            0 <= high * r + low < r * r,
            q >= 0,
    ;
    assert(full_radix() == r * r);
}

/// The low half that the addition stores.
pub open spec fn add_low_half(al: u128, bl: u128) -> u128 {
    vstd::wrapping::u128_specs::wrapping_add(al, bl)
}

/// The high half that the addition stores.
pub open spec fn add_high_half(ah: u128, al: u128, bh: u128, bl: u128) -> u128 {
    vstd::wrapping::u128_specs::wrapping_add(
        ah,
        vstd::wrapping::u128_specs::wrapping_add(
            bh,
            if add_carry(al, bl) == 1 {
                1u128
            } else {
                0u128
            },
        ),
    )
}

/// The carry that the half-based multiplication feeds into the high half:
/// one exactly when the product of the low halves wraps.
pub open spec fn mul_carry(al: u128, bl: u128) -> nat {
    if (al as nat * bl as nat) >= half_radix() {
        1nat
    } else {
        0nat
    }
}

/// The low half of the reported product.
pub open spec fn mul_low(al: u128, bl: u128) -> nat {
    (al as nat * bl as nat) % half_radix()
}

/// The high half of the reported product. The cross terms and the one-bit
/// carry stand in for the true upper half, so this is exact only for small
/// operands; the value type documents the imprecision.
pub open spec fn mul_high(ah: u128, al: u128, bh: u128, bl: u128) -> nat {
    (ah as nat * bl as nat + al as nat * bh as nat + mul_carry(al, bl)) % half_radix()
}

/// The low half that the multiplication stores.
pub open spec fn mul_low_half(al: u128, bl: u128) -> u128 {
    vstd::wrapping::u128_specs::wrapping_mul(al, bl)
}

/// The high half that the multiplication stores.
pub open spec fn mul_high_half(ah: u128, al: u128, bh: u128, bl: u128) -> u128 {
    vstd::wrapping::u128_specs::wrapping_add(
        vstd::wrapping::u128_specs::wrapping_add(
            vstd::wrapping::u128_specs::wrapping_mul(ah, bl),
            vstd::wrapping::u128_specs::wrapping_mul(al, bh),
        ),
        if mul_carry(al, bl) == 1 {
            1u128
        } else {
            0u128
        },
    )
}

/// Multiply two 256-bit values given as halves, with the historical
/// cross-term approximation. Returns high half, low half and the reported
/// overflow flag, which is simply "the high half of the result is non-zero".
pub(crate) fn wide_mul(ah: u128, al: u128, bh: u128, bl: u128) -> (r: (u128, u128, bool))
    ensures
        r.0 == mul_high_half(ah, al, bh, bl),
        r.1 == mul_low_half(al, bl),
        r.1 as nat == mul_low(al, bl),
        r.0 as nat == mul_high(ah, al, bh, bl),
        r.2 == (r.0 != 0),
        (ah == 0 && bh == 0 && (al as nat * bl as nat) < half_radix()) ==> (wide_nat(r.0, r.1)
            == wide_nat(ah, al) * wide_nat(bh, bl) && !r.2),
{
    let low = al.wrapping_mul(bl);
    let carry: u128 = if al.checked_mul(bl).is_none() {
        1
    } else {
        0
    };
    let high = ah.wrapping_mul(bl).wrapping_add(al.wrapping_mul(bh)).wrapping_add(carry);
    proof {
        lemma_wide_mul_correct(ah, al, bh, bl, high, low, carry);
    }
    (high, low, high > 0)
}

proof fn lemma_wide_mul_correct(
    ah: u128,
    al: u128,
    bh: u128,
    bl: u128,
    high: u128,
    low: u128,
    carry: u128,
)
    requires
        low == vstd::wrapping::u128_specs::wrapping_mul(al, bl),
        carry as nat == mul_carry(al, bl),
        high == vstd::wrapping::u128_specs::wrapping_add(
            vstd::wrapping::u128_specs::wrapping_add(
                vstd::wrapping::u128_specs::wrapping_mul(ah, bl),
                vstd::wrapping::u128_specs::wrapping_mul(al, bh),
            ),
            carry,
        ),
    ensures
        low as nat == mul_low(al, bl),
        high as nat == mul_high(ah, al, bh, bl),
        (ah == 0 && bh == 0 && (al as nat * bl as nat) < half_radix()) ==> (wide_nat(high, low)
            == wide_nat(ah, al) * wide_nat(bh, bl) && high == 0),
{
    let r = half_radix() as int;
    let x1 = ah as int * bl as int;
    let x2 = al as int * bh as int;
    lemma_mod_bound(x1, r);
    lemma_mod_bound(x2, r);
    let m1 = x1 % r;
    let m2 = x2 % r;
    let p1 = vstd::wrapping::u128_specs::wrapping_mul(ah, bl);
    let p2 = vstd::wrapping::u128_specs::wrapping_mul(al, bh);
    assert(p1 == m1);
    assert(p2 == m2);
    let s1 = vstd::wrapping::u128_specs::wrapping_add(p1, p2);
    assert(s1 == (m1 + m2) % r) by {
        if m1 + m2 < r {
            lemma_small_mod((m1 + m2) as nat, r as nat);
        } else {
            lemma_fundamental_div_mod_converse(m1 + m2, r, 1, m1 + m2 - r);
        }
    }
    assert(s1 == (x1 + x2) % r) by {
        lemma_add_mod_noop(x1, x2, r);
    }
    assert(high == (s1 + carry) % r) by {
        if s1 + carry < r {
            lemma_small_mod((s1 + carry) as nat, r as nat);
        } else {
            lemma_fundamental_div_mod_converse(s1 + carry, r, 1, s1 + carry - r);
        }
    }
    assert(high == (x1 + x2 + carry) % r) by {
        lemma_mod_bound(x1 + x2, r);
        lemma_small_mod(carry as nat, r as nat);
        lemma_add_mod_noop(x1 + x2, carry as int, r);
        lemma_add_mod_noop(x1, x2, r);
    }
    assert(high as nat == mul_high(ah, al, bh, bl));
    if ah == 0 && bh == 0 && (al as nat * bl as nat) < half_radix() {
        assert(x1 == 0 && x2 == 0);
        lemma_small_mod(carry as nat, r as nat);
        assert(carry == 0);
        assert(high == 0);
        lemma_small_mod(al as nat * bl as nat, half_radix());
        assert(low as nat == al as nat * bl as nat);
        assert(wide_nat(0, al) * wide_nat(0, bl) == al as nat * bl as nat) by (nonlinear_arith)
            requires
                wide_nat(0, al) == al as nat,
                wide_nat(0, bl) == bl as nat,
        ;
    }
}

/// The halves after a left shift of the 256-bit value. Shifting moves bits
/// from the low half into the high half; a shift of 256 or more clears
/// everything.
pub open spec fn shl_halves(high: u128, low: u128, shift: u64) -> (u128, u128) {
    if shift == 0 {
        (high, low)
    } else if shift < 128 {
        (((high << (shift as u128)) | (low >> ((128 - shift) as u128))), low << (shift as u128))
    } else if shift < 256 {
        (low << ((shift - 128) as u128), 0u128)
    } else {
        (0u128, 0u128)
    }
}

/// The halves after a right shift of the 256-bit value.
pub open spec fn shr_halves(high: u128, low: u128, shift: u64) -> (u128, u128) {
    if shift == 0 {
        (high, low)
    } else if shift < 128 {
        (high >> (shift as u128), ((low >> (shift as u128)) | (high << ((128 - shift) as u128))))
    } else if shift < 256 {
        (0u128, high >> ((shift - 128) as u128))
    } else {
        (0u128, 0u128)
    }
}

/// Shift a 256-bit value, given as halves, left by an arbitrary amount.
pub(crate) fn wide_shl(high: u128, low: u128, shift: u64) -> (r: (u128, u128))
    ensures
        r == shl_halves(high, low, shift),
{
    if shift == 0 {
        (high, low)
    } else if shift < 128 {
        ((high << (shift as u128)) | (low >> ((128 - shift) as u128)), low << (shift as u128))
    } else if shift < 256 {
        (low << ((shift - 128) as u128), 0)
    } else {
        (0, 0)
    }
}

/// Shift a 256-bit value, given as halves, right by an arbitrary amount.
pub(crate) fn wide_shr(high: u128, low: u128, shift: u64) -> (r: (u128, u128))
    ensures
        r == shr_halves(high, low, shift),
{
    if shift == 0 {
        (high, low)
    } else if shift < 128 {
        (high >> (shift as u128), (low >> (shift as u128)) | (high << ((128 - shift) as u128)))
    } else if shift < 256 {
        (0, high >> ((shift - 128) as u128))
    } else {
        (0, 0)
    }
}

} // verus!
