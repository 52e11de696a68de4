//! Single-bit reasoning on 128-bit words.
//!
//! The key bitset stores one bit per key code. These lemmas connect the word
//! operations that the executable code performs with the bit-level reading
//! that the contracts use.

use vstd::prelude::*;

verus! {

/// Whether bit `i` of a 128-bit word is set.
pub open spec fn u128_bit(x: u128, i: u128) -> bool {
    (x >> i) & 1 == 1
}

/// A one-bit word has exactly that bit set.
pub proof fn lemma_u128_bit_single(j: u128, i: u128)
    by (bit_vector)
    requires
        i < 128,
        j < 128,
    ensures
        u128_bit(1u128 << j, i) == (i == j),
{
}

/// Testing a bit by masking agrees with reading the bit.
pub proof fn lemma_u128_bit_mask_test(x: u128, j: u128)
    by (bit_vector)
    requires
        j < 128,
    ensures
        (x & (1u128 << j) != 0) == u128_bit(x, j),
{
}

/// Setting one bit leaves every other bit alone.
pub proof fn lemma_u128_bit_set(x: u128, j: u128, i: u128)
    by (bit_vector)
    requires
        i < 128,
        j < 128,
    ensures
        u128_bit(x | (1u128 << j), i) == (i == j || u128_bit(x, i)),
{
}

/// Clearing one bit leaves every other bit alone.
pub proof fn lemma_u128_bit_clear(x: u128, j: u128, i: u128)
    by (bit_vector)
    requires
        i < 128,
        j < 128,
    ensures
        u128_bit(x & !(1u128 << j), i) == (i != j && u128_bit(x, i)),
{
}

/// A left shift moves every bit up; a right shift moves every bit down.
pub proof fn lemma_u128_shift_bits(x: u128, s: u128, i: u128)
    by (bit_vector)
    requires
        s < 128,
        i < 128,
    ensures
        u128_bit(x << s, i) == (i >= s && u128_bit(x, (i - s) as u128)),
        u128_bit(x >> s, i) == (i + s < 128 && u128_bit(x, (i + s) as u128)),
{
}

/// AND with zero clears every bit.
pub proof fn lemma_u128_and_zero(x: u128)
    by (bit_vector)
    ensures
        x & 0u128 == 0,
{
}

/// OR and XOR with zero change nothing, as do shifting by zero and masking
/// out nothing.
pub proof fn lemma_u128_zero_identities(x: u128)
    by (bit_vector)
    ensures
        x | 0u128 == x,
        0u128 | x == x,
        x ^ 0u128 == x,
        x << 0u128 == x,
        x >> 0u128 == x,
        x & !0u128 == x,
{
}

/// OR sets exactly the bits set on either side.
pub proof fn lemma_u128_bit_or(a: u128, b: u128, i: u128)
    by (bit_vector)
    requires
        i < 128,
    ensures
        u128_bit(a | b, i) == (u128_bit(a, i) || u128_bit(b, i)),
{
}

/// When masking by `y` keeps `x` whole, every bit of `x` is a bit of `y`.
pub proof fn lemma_u128_subset_bit(x: u128, y: u128, i: u128)
    by (bit_vector)
    requires
        i < 128,
        x & y == x,
    ensures
        u128_bit(x, i) ==> u128_bit(y, i),
{
}

/// The zero word has no bit set.
pub proof fn lemma_u128_bit_of_zero(i: u128)
    by (bit_vector)
    requires
        i < 128,
    ensures
        !u128_bit(0u128, i),
{
}

/// AND, OR and XOR are associative.
pub proof fn lemma_u128_associativity(x: u128, y: u128, z: u128)
    by (bit_vector)
    ensures
        (x & y) & z == x & (y & z),
        (x | y) | z == x | (y | z),
        (x ^ y) ^ z == x ^ (y ^ z),
{
}

/// AND, OR and XOR are commutative.
pub proof fn lemma_u128_commutativity(x: u128, y: u128)
    by (bit_vector)
    ensures
        x & y == y & x,
        x | y == y | x,
        x ^ y == y ^ x,
{
}

/// Complementing an AND gives the OR of the complements, and the other way
/// round; a double complement is the word itself.
pub proof fn lemma_u128_de_morgan(x: u128, y: u128)
    by (bit_vector)
    ensures
        !(x & y) == !x | !y,
        !(x | y) == !x & !y,
        !(!x) == x,
{
}

/// AND distributes over OR.
pub proof fn lemma_u128_distributivity(x: u128, y: u128, z: u128)
    by (bit_vector)
    ensures
        x & (y | z) == (x & y) | (x & z),
{
}

/// Words that agree on the bits below `n` agree after masking to `n` bits.
/// `mask_below(n)` keeps bits `0 .. n`.
pub open spec fn mask_below(n: u128) -> u128 {
    if n >= 128 {
        u128::MAX
    } else {
        (((1u128 << n) - 1) as u128)
    }
}

/// Growing the mask by one position keeps the masked word in step with the
/// word's own bit at that position.
pub proof fn lemma_u128_mask_grow(x: u128, j: u128)
    by (bit_vector)
    requires
        j < 127,
    ensures
        u128_bit(x, j) ==> (x & (((1u128 << j) - 1) as u128)) | (1u128 << j) == x & (((1u128 << ((j + 1) as u128)) - 1) as u128),
        !u128_bit(x, j) ==> (x & (((1u128 << j) - 1) as u128)) == x & (((1u128 << ((j + 1) as u128)) - 1) as u128),
{
}

/// The same growth step at the top position, where the mask saturates.
pub proof fn lemma_u128_mask_grow_top(x: u128)
    by (bit_vector)
    ensures
        u128_bit(x, 127) ==> (x & (((1u128 << 127) - 1) as u128)) | (1u128 << 127) == x,
        !u128_bit(x, 127) ==> (x & (((1u128 << 127) - 1) as u128)) == x,
{
}

/// The empty mask clears everything; the full mask keeps everything.
pub proof fn lemma_u128_mask_ends(x: u128)
    by (bit_vector)
    ensures
        x & (((1u128 << 0) - 1) as u128) == 0,
        x & u128::MAX == x,
{
}

/// A word whose top bit is clear is unchanged by masking to 127 bits.
pub proof fn lemma_u128_mask_127(x: u128)
    by (bit_vector)
    ensures
        !u128_bit(x, 127) ==> x & (((1u128 << 127) - 1) as u128) == x,
{
}

} // verus!
