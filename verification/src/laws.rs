//! The laws the library promises, stated once and proved for all inputs:
//! the bitset algebra of [`KeyPattern`], the exactness of the key-list
//! round trip, and the order discipline of the mutation queue.

use vstd::prelude::*;

use vstd::std_specs::ops::{BitAndSpec, BitOrSpec, BitXorSpec, NotSpec, ShlSpec, ShrSpec};

use crate::bits::{
    lemma_u128_associativity, lemma_u128_bit_clear, lemma_u128_bit_of_zero, lemma_u128_bit_or,
    lemma_u128_bit_set, lemma_u128_bit_single, lemma_u128_commutativity, lemma_u128_de_morgan,
    lemma_u128_distributivity, lemma_u128_mask_127, lemma_u128_mask_ends, lemma_u128_mask_grow,
    lemma_u128_mask_grow_top, lemma_u128_shift_bits, lemma_u128_subset_bit,
    lemma_u128_zero_identities, mask_below,
};
use crate::hotkey::apply_requests;
use crate::key::Key;
use crate::key_hook::pattern_with_alteration;
use crate::key_pattern::{or_fold_keys, single_key_pattern, KeyPattern};
use crate::queue::queue_after_push;

verus! {

/// AND, OR and XOR on patterns are associative.
pub proof fn lemma_pattern_ops_associative(a: KeyPattern, b: KeyPattern, c: KeyPattern)
    ensures
        a.bitand_spec(b).bitand_spec(c) == a.bitand_spec(b.bitand_spec(c)),
        a.bitor_spec(b).bitor_spec(c) == a.bitor_spec(b.bitor_spec(c)),
        a.bitxor_spec(b).bitxor_spec(c) == a.bitxor_spec(b.bitxor_spec(c)),
{
    lemma_u128_associativity(a.high, b.high, c.high);
    lemma_u128_associativity(a.low, b.low, c.low);
}

/// AND, OR and XOR on patterns are commutative.
pub proof fn lemma_pattern_ops_commutative(a: KeyPattern, b: KeyPattern)
    ensures
        a.bitand_spec(b) == b.bitand_spec(a),
        a.bitor_spec(b) == b.bitor_spec(a),
        a.bitxor_spec(b) == b.bitxor_spec(a),
{
    lemma_u128_commutativity(a.high, b.high);
    lemma_u128_commutativity(a.low, b.low);
}

/// De Morgan on patterns: complementing an intersection gives the union of
/// the complements and the other way round; a double complement is the
/// pattern itself.
pub proof fn lemma_pattern_de_morgan(a: KeyPattern, b: KeyPattern)
    ensures
        a.bitand_spec(b).not_spec() == a.not_spec().bitor_spec(b.not_spec()),
        a.bitor_spec(b).not_spec() == a.not_spec().bitand_spec(b.not_spec()),
        a.not_spec().not_spec() == a,
{
    lemma_u128_de_morgan(a.high, b.high);
    lemma_u128_de_morgan(a.low, b.low);
}

/// AND distributes over OR on patterns.
pub proof fn lemma_pattern_and_distributes(a: KeyPattern, b: KeyPattern, c: KeyPattern)
    ensures
        a.bitand_spec(b.bitor_spec(c)) == a.bitand_spec(b).bitor_spec(a.bitand_spec(c)),
{
    lemma_u128_distributivity(a.high, b.high, c.high);
    lemma_u128_distributivity(a.low, b.low, c.low);
}

/// Shifting a pattern 128 positions left and then 128 positions right
/// returns it exactly, whenever its high half is zero.
pub proof fn lemma_pattern_shift_roundtrip(p: KeyPattern)
    requires
        p.high == 0,
    ensures
        p.shl_spec(128u64).shr_spec(128u64) == p,
{
    lemma_u128_zero_identities(p.low);
}

/// The pattern of a key with a non-zero code has exactly one set bit, at
/// position `code - 1`.
pub proof fn lemma_single_key_pattern_bit(code: u8, i: int)
    requires
        1 <= code,
        0 <= i < 256,
    ensures
        single_key_pattern(code).bit_at(i) == (i == code - 1),
{
    if code < 129 {
        if i < 128 {
            lemma_u128_bit_single(((code - 1) as u128), i as u128);
        } else {
            lemma_u128_bit_of_zero((i - 128) as u128);
        }
    } else {
        if i < 128 {
            lemma_u128_bit_of_zero(i as u128);
        } else {
            lemma_u128_bit_single(((code - 129) as u128), (i - 128) as u128);
        }
    }
}

/// A left shift moves every bit of the pattern up by the shift amount, with
/// correct carry across the half boundary; bits pushed beyond the top are
/// gone, and bit positions below the shift amount come up empty.
pub proof fn lemma_pattern_shl_bits(p: KeyPattern, shift: u64, i: int)
    requires
        0 <= i < 256,
    ensures
        p.shl_spec(shift).bit_at(i) == (i >= shift && p.bit_at(i - shift)),
{
    if shift == 0 {
    } else if shift < 128 {
        let s = shift as u128;
        if i < 128 {
            lemma_u128_shift_bits(p.low, s, i as u128);
        } else {
            let k = (i - 128) as u128;
            lemma_u128_bit_or(p.high << s, p.low >> ((128 - shift) as u128), k);
            lemma_u128_shift_bits(p.high, s, k);
            lemma_u128_shift_bits(p.low, (128 - shift) as u128, k);
        }
    } else if shift < 256 {
        if i < 128 {
            lemma_u128_bit_of_zero(i as u128);
        } else {
            lemma_u128_shift_bits(p.low, (shift - 128) as u128, (i - 128) as u128);
        }
    } else {
        if i < 128 {
            lemma_u128_bit_of_zero(i as u128);
        } else {
            lemma_u128_bit_of_zero((i - 128) as u128);
        }
    }
}

/// A right shift moves every bit of the pattern down by the shift amount,
/// with correct carry across the half boundary.
pub proof fn lemma_pattern_shr_bits(p: KeyPattern, shift: u64, i: int)
    requires
        0 <= i < 256,
    ensures
        p.shr_spec(shift).bit_at(i) == (i + shift < 256 && p.bit_at(i + shift)),
{
    if shift == 0 {
    } else if shift < 128 {
        let s = shift as u128;
        if i < 128 {
            lemma_u128_bit_or(p.low >> s, p.high << ((128 - shift) as u128), i as u128);
            lemma_u128_shift_bits(p.low, s, i as u128);
            lemma_u128_shift_bits(p.high, (128 - shift) as u128, i as u128);
        } else {
            lemma_u128_shift_bits(p.high, s, (i - 128) as u128);
        }
    } else if shift < 256 {
        if i < 128 {
            lemma_u128_shift_bits(p.high, (shift - 128) as u128, i as u128);
        } else {
            lemma_u128_bit_of_zero((i - 128) as u128);
        }
    } else {
        if i < 128 {
            lemma_u128_bit_of_zero(i as u128);
        } else {
            lemma_u128_bit_of_zero((i - 128) as u128);
        }
    }
}

/// A full-subset match contains key by key: every key of a pattern that is a
/// subset of the pressed set is itself pressed.
pub proof fn lemma_subset_contains_codes(a: KeyPattern, b: KeyPattern, code: u8)
    requires
        a.is_subset_of(b),
        a.has_code(code),
    ensures
        b.has_code(code),
{
    if code < 129 {
        lemma_u128_subset_bit(a.low, b.low, (code - 1) as u128);
    } else {
        lemma_u128_subset_bit(a.high, b.high, (code - 129) as u128);
    }
}

/// Recording a key alteration touches exactly that key's bit: the altered
/// key reads as pressed exactly on a press, and every other key keeps its
/// state.
pub proof fn lemma_alteration_tracks_codes(states: KeyPattern, key_code: u8, down: bool, other: u8)
    requires
        1 <= key_code,
    ensures
        pattern_with_alteration(states, key_code, down).has_code(key_code) == down,
        other != key_code ==> pattern_with_alteration(states, key_code, down).has_code(other)
            == states.has_code(other),
{
    if key_code < 129 {
        let j = (key_code - 1) as u128;
        lemma_u128_zero_identities(states.high);
        if down {
            lemma_u128_bit_set(states.low, j, j);
            if 1 <= other && other < 129 && other != key_code {
                lemma_u128_bit_set(states.low, j, (other - 1) as u128);
            }
        } else {
            lemma_u128_bit_clear(states.low, j, j);
            if 1 <= other && other < 129 && other != key_code {
                lemma_u128_bit_clear(states.low, j, (other - 1) as u128);
            }
        }
    } else {
        let j = (key_code - 129) as u128;
        lemma_u128_zero_identities(states.low);
        if down {
            lemma_u128_bit_set(states.high, j, j);
            if other >= 129 && other != key_code {
                lemma_u128_bit_set(states.high, j, (other - 129) as u128);
            }
        } else {
            lemma_u128_bit_clear(states.high, j, j);
            if other >= 129 && other != key_code {
                lemma_u128_bit_clear(states.high, j, (other - 129) as u128);
            }
        }
    }
}

/// Recording an alteration of the reserved code 0, which owns no bit,
/// changes nothing.
pub proof fn lemma_alteration_of_code_zero_is_noop(states: KeyPattern, down: bool)
    ensures
        pattern_with_alteration(states, 0, down) == states,
{
    lemma_u128_zero_identities(states.high);
    lemma_u128_zero_identities(states.low);
}

/// The pattern holding the bits of `p` whose position is below `n`.
pub open spec fn masked_pattern(p: KeyPattern, n: int) -> KeyPattern {
    KeyPattern {
        high: p.high & mask_below(
            if n <= 128 {
                0u128
            } else {
                (n - 128) as u128
            },
        ),
        low: p.low & mask_below(
            if n <= 128 {
                n as u128
            } else {
                128u128
            },
        ),
    }
}

proof fn lemma_keys_rebuild(p: KeyPattern, n: int)
    requires
        0 <= n <= 255,
    ensures
        or_fold_keys(p.keys_up_to(n)) == masked_pattern(p, n),
    decreases n,
{
    if n == 0 {
        lemma_u128_mask_ends(p.low);
        lemma_u128_mask_ends(p.high);
    } else {
        lemma_keys_rebuild(p, n - 1);
        let code = n as u8;
        let prev = or_fold_keys(p.keys_up_to(n - 1));
        if p.has_code(code) {
            assert(p.keys_up_to(n).drop_last() =~= p.keys_up_to(n - 1));
            assert(p.keys_up_to(n).last() == (Key { code }));
        }
        if n <= 128 {
            let j = (n - 1) as u128;
            lemma_u128_zero_identities(prev.high);
            if n <= 127 {
                lemma_u128_mask_grow(p.low, j);
            } else {
                lemma_u128_mask_grow_top(p.low);
                lemma_u128_mask_ends(p.low);
            }
        } else {
            let j = (n - 129) as u128;
            lemma_u128_zero_identities(prev.low);
            lemma_u128_mask_ends(p.low);
            lemma_u128_mask_grow(p.high, j);
        }
    }
}

/// Re-ORing the keys of a pattern reconstructs the pattern exactly, for
/// every pattern whose topmost bit — the one bit no key code owns — is
/// clear. A pattern with that bit set has no key list that could rebuild it.
pub proof fn lemma_as_keys_reconstructs(p: KeyPattern)
    requires
        !p.bit_at(255),
    ensures
        or_fold_keys(p.spec_keys()) == p,
{
    lemma_keys_rebuild(p, 255);
    lemma_u128_mask_ends(p.low);
    lemma_u128_mask_127(p.high);
}

proof fn lemma_keys_up_to_bounded_sorted(p: KeyPattern, n: int)
    requires
        0 <= n <= 255,
    ensures
        forall|a: int|
            0 <= a < p.keys_up_to(n).len() ==> 1 <= #[trigger] p.keys_up_to(n)[a].code <= n,
        forall|a: int, b: int|
            0 <= a < b < p.keys_up_to(n).len() ==> #[trigger] p.keys_up_to(n)[a].code
                < #[trigger] p.keys_up_to(n)[b].code,
    decreases n,
{
    if n > 0 {
        lemma_keys_up_to_bounded_sorted(p, n - 1);
        let prev = p.keys_up_to(n - 1);
        if p.has_code(n as u8) {
            let cur = p.keys_up_to(n);
            assert(cur == prev.push(Key { code: n as u8 }));
            assert forall|a: int| 0 <= a < cur.len() implies 1 <= #[trigger] cur[a].code <= n by {
                if a < prev.len() {
                    assert(cur[a] == prev[a]);
                } else {
                    assert(cur[a] == (Key { code: n as u8 }));
                }
            }
            assert forall|a: int, b: int|
                0 <= a < b < cur.len() implies #[trigger] cur[a].code
                < #[trigger] cur[b].code by {
                assert(cur[a] == prev[a]);
                if b < prev.len() {
                    assert(cur[b] == prev[b]);
                } else {
                    assert(cur[b] == (Key { code: n as u8 }));
                    assert(prev[a].code <= n - 1);
                }
            }
        }
    }
}

/// The key list of a pattern is strictly ascending in the key codes: each
/// key appears at most once, and the codes come out in order.
pub proof fn lemma_keys_are_sorted(p: KeyPattern)
    ensures
        forall|a: int, b: int|
            0 <= a < b < p.spec_keys().len() ==> #[trigger] p.spec_keys()[a].code
                < #[trigger] p.spec_keys()[b].code,
{
    lemma_keys_up_to_bounded_sorted(p, 255);
}

/// The queue contents after pushing a whole sequence of requests, in order.
pub open spec fn queue_after_pushes(q: Seq<u8>, requests: Seq<u8>) -> Seq<u8>
    decreases requests.len(),
{
    if requests.len() == 0 {
        q
    } else {
        queue_after_pushes(queue_after_push(q, requests[0]), requests.drop_first())
    }
}

/// Requests queued one after another stand in the queue in exactly their
/// enqueue order — none lost, none duplicated — as long as the queue's
/// capacity of 64 is not exceeded.
pub proof fn lemma_queue_keeps_enqueue_order(q: Seq<u8>, requests: Seq<u8>)
    requires
        q.len() + requests.len() <= 64,
    ensures
        queue_after_pushes(q, requests) == q + requests,
    decreases requests.len(),
{
    if requests.len() == 0 {
        assert(q + requests =~= q);
    } else {
        assert(queue_after_push(q, requests[0]) == q.push(requests[0]));
        lemma_queue_keeps_enqueue_order(q.push(requests[0]), requests.drop_first());
        assert(q.push(requests[0]) + requests.drop_first() =~= q + requests);
    }
}

/// Concurrently queued requests, drained once by the dispatcher, land as the
/// sequential application of all of them in their actual enqueue order: the
/// enabled state after one evaluation of a hotkey whose queue received the
/// requests in that order onto an empty queue is the fold of the requests.
pub proof fn lemma_drain_applies_in_order(enabled: bool, requests: Seq<u8>)
    requires
        requests.len() <= 64,
    ensures
        apply_requests(enabled, queue_after_pushes(Seq::<u8>::empty(), requests)) == apply_requests(
            enabled,
            requests,
        ),
{
    lemma_queue_keeps_enqueue_order(Seq::<u8>::empty(), requests);
    assert(Seq::<u8>::empty() + requests =~= requests);
}

} // verus!
