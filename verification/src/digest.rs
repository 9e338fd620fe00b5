//! The content digest that addresses the cache.
//!
//! The digest is a 64-bit running state. Every input byte is xor-ed into the
//! state, and the state is then multiplied by a fixed odd number, keeping the
//! low 64 bits. Both operations can be undone, so two inputs of equal length
//! that differ in exactly one byte never share a digest.

use vstd::arithmetic::div_mod::{lemma_mul_mod_noop_left, lemma_mul_mod_noop_right, lemma_small_mod};
use vstd::prelude::*;

verus! {

/// Starting state of the digest.
pub const DIGEST_BASIS: u64 = 0xcbf2_9ce4_8422_2325;

/// Odd multiplier applied after every byte.
pub const DIGEST_PRIME: u64 = 0x0000_0100_0000_01b3;

/// The number that undoes a multiplication by `DIGEST_PRIME` on 64 bits.
pub const DIGEST_PRIME_INVERSE: u64 = 0xce96_5057_aff6_957b;

/// Byte fed between the three parts of a key's input. UTF-8 text has no
/// such byte.
pub const PART_SEPARATOR: u8 = 0xff;

/// The number of values a digest state can take.
pub open spec fn modulus() -> nat {
    0x1_0000_0000_0000_0000
}

/// The digest state after one more byte: the byte is xor-ed into the low end
/// of the state, and the state is multiplied by the prime, keeping 64 bits.
pub open spec fn mix(state: u64, byte: u8) -> u64 {
    (((state ^ (byte as u64)) as nat * DIGEST_PRIME as nat) % modulus()) as u64
}

/// The digest state after all of `data`, fed front to back into `state`.
pub open spec fn absorb(state: u64, data: Seq<u8>) -> u64
    decreases data.len(),
{
    if data.len() == 0 {
        state
    } else {
        mix(absorb(state, data.drop_last()), data.last())
    }
}

/// Feeds one byte into the digest state.
pub fn mix_byte(state: u64, byte: u8) -> (next: u64)
    ensures
        next == mix(state, byte),
{
    (state ^ (byte as u64)).wrapping_mul(DIGEST_PRIME)
}

/// Feeds all of `data` into the digest state, front to back.
pub fn absorb_bytes(state: u64, data: &[u8]) -> (next: u64)
    ensures
        next == absorb(state, data@),
{
    let mut current: u64 = state;
    let mut index: usize = 0;
    while index < data.len()
        invariant
            index <= data.len(),
            current == absorb(state, data@.take(index as int)),
        decreases data.len() - index,
    {
        proof {
            let upto = data@.take(index + 1);
            assert(upto.drop_last() =~= data@.take(index as int));
            assert(upto.last() == data@[index as int]);
        }
        current = mix_byte(current, data[index]);
        index = index + 1;
    }
    proof {
        assert(data@.take(data.len() as int) =~= data@);
    }
    current
}

/// Multiplying by the prime loses nothing: multiplying the product by the
/// inverse gives the first factor back.
pub proof fn lemma_multiplication_undone(value: u64)
    ensures
        (((value as nat * DIGEST_PRIME as nat) % modulus()) * DIGEST_PRIME_INVERSE as nat)
            % modulus() == value,
{
    let m = modulus() as int;
    let x = value as int;
    let p = DIGEST_PRIME as int;
    let q = DIGEST_PRIME_INVERSE as int;
    lemma_mul_mod_noop_left(x * p, q, m);
    assert((x * p) * q == x * (p * q)) by (nonlinear_arith);
    lemma_mul_mod_noop_right(x, p * q, m);
    assert(p * q == 0xce9650590f * m + 1);
    assert((p * q) % m == 1);
    assert(x * 1 == x);
    lemma_small_mod(value as nat, modulus());
}

/// Two states that one byte takes to the same state are the same state.
pub proof fn lemma_mix_keeps_states_apart(first: u64, second: u64, byte: u8)
    requires
        mix(first, byte) == mix(second, byte),
    ensures
        first == second,
{
    let b = byte as u64;
    lemma_multiplication_undone(first ^ b);
    lemma_multiplication_undone(second ^ b);
    assert((first ^ b) == (second ^ b));
    assert(first == second) by (bit_vector)
        requires
            (first ^ b) == (second ^ b),
    ;
}

/// Two bytes that take one state to the same state are the same byte.
pub proof fn lemma_mix_keeps_bytes_apart(state: u64, first: u8, second: u8)
    requires
        mix(state, first) == mix(state, second),
    ensures
        first == second,
{
    let a = first as u64;
    let b = second as u64;
    lemma_multiplication_undone(state ^ a);
    lemma_multiplication_undone(state ^ b);
    assert((state ^ a) == (state ^ b));
    assert(a == b) by (bit_vector)
        requires
            (state ^ a) == (state ^ b),
    ;
}

/// Feeding `front + back` is feeding `front` and then `back`.
pub proof fn lemma_absorb_in_two_parts(state: u64, front: Seq<u8>, back: Seq<u8>)
    ensures
        absorb(state, front + back) == absorb(absorb(state, front), back),
    decreases back.len(),
{
    if back.len() == 0 {
        assert(front + back =~= front);
    } else {
        lemma_absorb_in_two_parts(state, front, back.drop_last());
        assert((front + back).drop_last() =~= front + back.drop_last());
        assert((front + back).last() == back.last());
    }
}

/// Two states that the same data takes to the same state are the same state.
pub proof fn lemma_absorb_keeps_states_apart(first: u64, second: u64, data: Seq<u8>)
    requires
        absorb(first, data) == absorb(second, data),
    ensures
        first == second,
    decreases data.len(),
{
    if data.len() > 0 {
        lemma_mix_keeps_states_apart(
            absorb(first, data.drop_last()),
            absorb(second, data.drop_last()),
            data.last(),
        );
        lemma_absorb_keeps_states_apart(first, second, data.drop_last());
    }
}

/// Whether `first` and `second` have the same length and differ at the
/// position `at` and nowhere else.
pub open spec fn differ_in_one_byte(first: Seq<u8>, second: Seq<u8>, at: int) -> bool {
    &&& first.len() == second.len()
    &&& 0 <= at < first.len()
    &&& first[at] != second[at]
    &&& forall|i: int| 0 <= i < first.len() && i != at ==> first[i] == second[i]
}

/// Data that differs in exactly one byte leaves the digest in a different
/// state, whatever state it started from.
pub proof fn lemma_one_byte_changes_state(state: u64, first: Seq<u8>, second: Seq<u8>, at: int)
    requires
        differ_in_one_byte(first, second, at),
    ensures
        absorb(state, first) != absorb(state, second),
{
    let front = first.take(at);
    let rest = first.skip(at + 1);
    let first_upto = front.push(first[at]);
    let second_upto = front.push(second[at]);
    assert(first =~= first_upto + rest);
    assert(second =~= second_upto + rest);
    lemma_absorb_in_two_parts(state, first_upto, rest);
    lemma_absorb_in_two_parts(state, second_upto, rest);
    assert(first_upto.drop_last() =~= front);
    assert(second_upto.drop_last() =~= front);
    let before = absorb(state, front);
    assert(absorb(state, first_upto) == mix(before, first[at]));
    assert(absorb(state, second_upto) == mix(before, second[at]));
    if absorb(state, first) == absorb(state, second) {
        lemma_absorb_keeps_states_apart(
            absorb(state, first_upto),
            absorb(state, second_upto),
            rest,
        );
        lemma_mix_keeps_bytes_apart(before, first[at], second[at]);
    }
}

} // verus!
