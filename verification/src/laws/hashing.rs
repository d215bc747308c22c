//! What holds of the hash: nothing of a text goes unseen.

use vstd::prelude::*;

use crate::hash;

verus! {

/// What one more byte makes of a hash.
pub open spec fn mixed(before: u64, byte: u8) -> u64 {
    (((before ^ (byte as u64)) as int * 0x100_0000_01b3) % 0x1_0000_0000_0000_0000) as u64
}

/// What more bytes make of a hash, one after another.
pub open spec fn mixed_all(before: u64, bytes: Seq<u8>) -> u64
    decreases bytes.len(),
{
    if bytes.len() == 0 {
        before
    } else {
        mixed(mixed_all(before, bytes.drop_last()), bytes.last())
    }
}

proof fn lemma_encode_concat(a: Seq<char>, b: Seq<char>)
    ensures
        vstd::utf8::encode_utf8(a + b) == vstd::utf8::encode_utf8(a) + vstd::utf8::encode_utf8(b),
    decreases a.len(),
{
    if a.len() == 0 {
        assert(a + b =~= b);
        assert(vstd::utf8::encode_utf8(a) + vstd::utf8::encode_utf8(b) =~= vstd::utf8::encode_utf8(
            b,
        ));
    } else {
        assert((a + b).drop_first() =~= a.drop_first() + b);
        lemma_encode_concat(a.drop_first(), b);
        let first = vstd::utf8::encode_scalar(a[0] as u32);
        let rest = vstd::utf8::encode_utf8(a.drop_first());
        assert(first + (rest + vstd::utf8::encode_utf8(b)) =~= first + rest
            + vstd::utf8::encode_utf8(b));
    }
}

proof fn lemma_hash_concat(a: Seq<u8>, b: Seq<u8>)
    ensures
        hash::fnv1a(a + b) == mixed_all(hash::fnv1a(a), b),
    decreases b.len(),
{
    if b.len() == 0 {
        assert(a + b =~= a);
    } else {
        assert((a + b).drop_last() =~= a + b.drop_last());
        lemma_hash_concat(a, b.drop_last());
    }
}

proof fn lemma_encode_ascii(c: char)
    requires
        c as int <= 0x7f,
    ensures
        vstd::utf8::encode_utf8(seq![c]) == seq![c as u8],
{
    reveal_with_fuel(vstd::utf8::encode_utf8, 2);
    vstd::utf8::is_ascii_chars_encode_utf8(seq![c]);
    assert(vstd::utf8::encode_utf8(seq![c]) =~= seq![c as u8]);
}

/// The hash of a text that goes on is the hash so far with every further byte mixed
/// in, however long the text is.
pub proof fn law_every_byte_is_mixed_in(so_far: Seq<char>, further: Seq<char>)
    ensures
        hash::text_hash(Seq::empty()) == 0xcbf2_9ce4_8422_2325,
        hash::text_hash(so_far + further) == mixed_all(
            hash::text_hash(so_far),
            vstd::utf8::encode_utf8(further),
        ),
{
    lemma_encode_concat(so_far, further);
    lemma_hash_concat(vstd::utf8::encode_utf8(so_far), vstd::utf8::encode_utf8(further));
}

/// The hash of a text that goes on with an ASCII character is the hash so far,
/// combined with the character by exclusive or and multiplied by the prime, modulo
/// 2^64.
pub proof fn law_ascii_character_is_mixed_in(so_far: Seq<char>, c: char)
    requires
        c as int <= 0x7f,
    ensures
        hash::text_hash(so_far.push(c)) as int == ((hash::text_hash(so_far) ^ (c as u64)) as int
            * 0x100_0000_01b3) % 0x1_0000_0000_0000_0000,
{
    law_every_byte_is_mixed_in(so_far, seq![c]);
    lemma_encode_ascii(c);
    assert(so_far.push(c) =~= so_far + seq![c]);
    reveal_with_fuel(mixed_all, 2);
    assert(seq![c as u8].drop_last() =~= Seq::empty());
}

/// What multiplying by the prime is undone by, modulo 2^64.
spec fn inverse() -> int {
    0xce96_5057_aff6_957b
}

proof fn lemma_inverse_undoes(value: int)
    requires
        0 <= value < 0x1_0000_0000_0000_0000,
    ensures
        (((value * 0x100_0000_01b3) % 0x1_0000_0000_0000_0000) * inverse())
            % 0x1_0000_0000_0000_0000 == value,
{
    let modulus = 0x1_0000_0000_0000_0000int;
    let prime = 0x100_0000_01b3int;
    let rounds = 0xce_9650_590fint;
    vstd::arithmetic::div_mod::lemma_mul_mod_noop_left(value * prime, inverse(), modulus);
    assert(prime * inverse() == rounds * modulus + 1);
    vstd::arithmetic::mul::lemma_mul_is_associative(value, prime, inverse());
    vstd::arithmetic::mul::lemma_mul_is_distributive_add(value, rounds * modulus, 1);
    vstd::arithmetic::mul::lemma_mul_is_associative(value, rounds, modulus);
    vstd::arithmetic::mul::lemma_mul_is_commutative(value * rounds, modulus);
    vstd::arithmetic::div_mod::lemma_mod_multiples_vanish(value * rounds, value, modulus);
    vstd::arithmetic::div_mod::lemma_small_mod(value as nat, modulus as nat);
}

proof fn lemma_prime_cancels(a: u64, b: u64)
    requires
        (a as int * 0x100_0000_01b3) % 0x1_0000_0000_0000_0000 == (b as int * 0x100_0000_01b3)
            % 0x1_0000_0000_0000_0000,
    ensures
        a == b,
{
    lemma_inverse_undoes(a as int);
    lemma_inverse_undoes(b as int);
}

proof fn lemma_mixed_differs(a: u64, b: u64, byte: u8)
    ensures
        mixed(a, byte) == mixed(b, byte) <==> a == b,
{
    if mixed(a, byte) == mixed(b, byte) {
        let wide = byte as u64;
        lemma_prime_cancels(a ^ wide, b ^ wide);
        assert(a == b) by (bit_vector)
            requires
                a ^ wide == b ^ wide,
        ;
    }
}

proof fn lemma_mixed_all_differs(a: u64, b: u64, bytes: Seq<u8>)
    ensures
        mixed_all(a, bytes) == mixed_all(b, bytes) <==> a == b,
    decreases bytes.len(),
{
    if bytes.len() > 0 {
        lemma_mixed_all_differs(a, b, bytes.drop_last());
        lemma_mixed_differs(
            mixed_all(a, bytes.drop_last()),
            mixed_all(b, bytes.drop_last()),
            bytes.last(),
        );
    }
}

/// Two texts that end alike have the same hash exactly when what comes before has.
pub proof fn law_a_common_ending_hides_nothing(a: Seq<char>, b: Seq<char>, ending: Seq<char>)
    ensures
        hash::text_hash(a + ending) == hash::text_hash(b + ending) <==> hash::text_hash(a)
            == hash::text_hash(b),
{
    law_every_byte_is_mixed_in(a, ending);
    law_every_byte_is_mixed_in(b, ending);
    lemma_mixed_all_differs(
        hash::text_hash(a),
        hash::text_hash(b),
        vstd::utf8::encode_utf8(ending),
    );
}

/// Two texts that differ in one ASCII character, anywhere, have different hashes.
pub proof fn law_one_character_changes_the_hash(
    before: Seq<char>,
    c: char,
    d: char,
    after: Seq<char>,
)
    requires
        c as int <= 0x7f,
        d as int <= 0x7f,
        c != d,
    ensures
        hash::text_hash(before.push(c) + after) != hash::text_hash(before.push(d) + after),
{
    law_a_common_ending_hides_nothing(before.push(c), before.push(d), after);
    law_ascii_character_is_mixed_in(before, c);
    law_ascii_character_is_mixed_in(before, d);
    let h = hash::text_hash(before);
    let x = c as u64;
    let y = d as u64;
    if hash::text_hash(before.push(c)) == hash::text_hash(before.push(d)) {
        lemma_prime_cancels(h ^ x, h ^ y);
        assert(x == y) by (bit_vector)
            requires
                h ^ x == h ^ y,
        ;
    }
}

} // verus!
