//! The hash that commit identifiers are derived from.

use vstd::prelude::*;

use crate::text;

verus! {

/// The hash of the empty text.
pub const OFFSET_BASIS: u64 = 0xcbf2_9ce4_8422_2325;

/// The factor that each step multiplies by.
pub const PRIME: u64 = 0x0000_0100_0000_01b3;

/// The 64-bit FNV-1a hash of `bytes`: each byte in turn is combined by
/// exclusive or and the result multiplied by the prime, modulo 2^64.
pub open spec fn fnv1a(bytes: Seq<u8>) -> u64
    decreases bytes.len(),
{
    if bytes.len() == 0 {
        OFFSET_BASIS
    } else {
        let mixed = fnv1a(bytes.drop_last()) ^ (bytes.last() as u64);
        ((mixed as nat * PRIME as nat) % 0x1_0000_0000_0000_0000) as u64
    }
}

/// The hash of the UTF-8 bytes of `text`.
pub open spec fn text_hash(text: Seq<char>) -> u64 {
    fnv1a(vstd::utf8::encode_utf8(text))
}

/// The hash of `value` as 16 hexadecimal digits in lower case. It depends on
/// the text alone, so it is the same in every run.
pub fn stable_hex_hash(value: &str) -> (text: String)
    ensures
        text@ == text::hex_digits(text_hash(value@)),
{
    let bytes = value.as_bytes();
    let mut hash: u64 = OFFSET_BASIS;
    let mut i: usize = 0;
    assert(bytes@.take(0) =~= Seq::empty());
    while i < bytes.len()
        invariant
            i <= bytes@.len(),
            hash == fnv1a(bytes@.take(i as int)),
        decreases bytes@.len() - i,
    {
        assert(bytes@.take(i + 1).drop_last() =~= bytes@.take(i as int));
        hash = hash ^ (bytes[i] as u64);
        hash = hash.wrapping_mul(PRIME);
        i = i + 1;
    }
    assert(bytes@.take(bytes@.len() as int) =~= bytes@);
    text::hex_text(hash)
}

} // verus!
