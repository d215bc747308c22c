//! What holds of the texts of numbers and of blank texts.

use vstd::prelude::*;

use crate::text;

verus! {

/// The value of a digit in lower case.
pub open spec fn digit_value(c: char) -> int {
    if '0' <= c <= '9' {
        c as int - '0' as int
    } else {
        c as int - 'a' as int + 10
    }
}

/// The number that `digits` stand for in the given base.
pub open spec fn number(digits: Seq<char>, base: int) -> int
    decreases digits.len(),
{
    if digits.len() == 0 {
        0
    } else {
        base * number(digits.drop_last(), base) + digit_value(digits.last())
    }
}

proof fn lemma_hex_prefix(value: u64, count: int)
    requires
        1 <= count <= 16,
    ensures
        number(text::hex_digits(value).take(count), 16) == value >> ((64 - 4 * count) as u64),
    decreases count,
{
    let digits = text::hex_digits(value);
    let prefix = digits.take(count);
    let shift = (64 - 4 * count) as u64;
    let bits = (value >> shift) & 0xf;
    assert((value >> shift) & 0xf < 16) by (bit_vector);
    assert(prefix.last() == text::digit_char(bits as int));
    assert(digit_value(prefix.last()) == bits);
    assert(prefix.drop_last() =~= digits.take(count - 1));
    if count == 1 {
        assert(prefix.drop_last() =~= Seq::empty());
        assert(number(prefix.drop_last(), 16) == 0);
        assert((value >> 60u64) & 0xf == value >> 60u64) by (bit_vector);
    } else {
        lemma_hex_prefix(value, count - 1);
        let wider = (shift + 4) as u64;
        assert(value >> shift == 16 * (value >> wider) + ((value >> shift) & 0xf)) by (bit_vector)
            requires
                shift <= 56,
                wider == shift + 4,
        ;
    }
}

/// The hexadecimal text of a number has 16 digits in lower case and stands for the
/// number.
pub proof fn law_hex_text_stands_for_the_number(value: u64)
    ensures
        text::hex_digits(value).len() == 16,
        forall|i: int|
            0 <= i < 16 ==> '0' <= #[trigger] text::hex_digits(value)[i] <= '9' || 'a'
                <= text::hex_digits(value)[i] <= 'f',
        number(text::hex_digits(value), 16) == value,
{
    let digits = text::hex_digits(value);
    assert forall|i: int| 0 <= i < 16 implies '0' <= #[trigger] digits[i] <= '9' || 'a' <= digits[i]
        <= 'f' by {
        let shift = (60 - 4 * i) as u64;
        assert((value >> shift) & 0xf < 16) by (bit_vector);
    }
    lemma_hex_prefix(value, 16);
    assert(digits.take(16) =~= digits);
    assert(value >> 0u64 == value) by (bit_vector);
}

proof fn lemma_decimal_number(value: nat)
    ensures
        number(text::decimal_digits(value), 10) == value,
        text::decimal_digits(value).len() > 0,
        value > 0 ==> text::decimal_digits(value).first() != '0',
        forall|i: int|
            0 <= i < text::decimal_digits(value).len() ==> '0' <= #[trigger] text::decimal_digits(
                value,
            )[i] <= '9',
    decreases value,
{
    let digits = text::decimal_digits(value);
    if value < 10 {
        assert(digits.drop_last() =~= Seq::empty());
        assert(number(digits.drop_last(), 10) == 0);
    } else {
        lemma_decimal_number(value / 10);
        let before = text::decimal_digits(value / 10);
        assert(digits.drop_last() =~= before);
        assert(digits.first() == before.first());
    }
}

proof fn lemma_zeros_count_nothing(count: nat, digits: Seq<char>)
    ensures
        number(Seq::new(count, |i: int| '0') + digits, 10) == number(digits, 10),
    decreases count + digits.len(),
{
    let zeros = Seq::new(count, |i: int| '0');
    let padded = zeros + digits;
    if digits.len() > 0 {
        lemma_zeros_count_nothing(count, digits.drop_last());
        assert(padded.drop_last() =~= zeros + digits.drop_last());
    } else if count > 0 {
        let fewer = Seq::new((count - 1) as nat, |i: int| '0');
        lemma_zeros_count_nothing((count - 1) as nat, digits);
        assert(padded.drop_last() =~= fewer + digits);
        assert(padded.last() == '0');
    } else {
        assert(padded =~= digits);
    }
}

/// The padded text of a number stands for the number, is made of decimal digits,
/// has at least three of them, and has more than three only where it needs them.
pub proof fn law_padded_text_stands_for_the_number(value: nat)
    ensures
        number(text::padded_digits(value), 10) == value,
        text::padded_digits(value).len() >= 3,
        text::padded_digits(value).len() > 3 ==> text::padded_digits(value).first() != '0',
        forall|i: int|
            0 <= i < text::padded_digits(value).len() ==> '0' <= #[trigger] text::padded_digits(
                value,
            )[i] <= '9',
{
    lemma_decimal_number(value);
    let digits = text::decimal_digits(value);
    if digits.len() < 3 {
        let count = (3 - digits.len()) as nat;
        lemma_zeros_count_nothing(count, digits);
        let zeros = Seq::new(count, |i: int| '0');
        assert forall|i: int| 0 <= i < 3 implies '0' <= #[trigger] text::padded_digits(value)[i]
            <= '9' by {
            if i < count {
                assert(text::padded_digits(value)[i] == zeros[i]);
            } else {
                assert(text::padded_digits(value)[i] == digits[i - count]);
            }
        }
    } else if value == 0 {
        assert(digits.len() == 1);
    }
}

/// A text is blank exactly when no character of it is anything but white space. So
/// no part of a text goes unseen: two texts together are blank exactly when both
/// are, and a single character is blank exactly when it is white space.
pub proof fn law_blank_means_all_white_space(a: Seq<char>, b: Seq<char>, c: char)
    ensures
        text::is_blank(a) <==> !(exists|i: int|
            0 <= i < a.len() && !text::is_white_space(#[trigger] a[i])),
        text::is_blank(a + b) <==> text::is_blank(a) && text::is_blank(b),
        text::is_blank(seq![c]) <==> text::is_white_space(c),
        text::is_blank(Seq::empty()),
{
    let both = a + b;
    if text::is_blank(both) {
        assert forall|i: int| 0 <= i < a.len() implies text::is_white_space(#[trigger] a[i]) by {
            assert(a[i] == both[i]);
        }
        assert forall|i: int| 0 <= i < b.len() implies text::is_white_space(#[trigger] b[i]) by {
            assert(b[i] == both[a.len() + i]);
        }
    }
    assert(seq![c][0] == c);
}

/// The white space characters are those of the Unicode property, by their codes.
pub proof fn law_white_space_characters(c: char)
    ensures
        text::is_white_space(c) <==> seq![
            0x9int,
            0xa,
            0xb,
            0xc,
            0xd,
            0x20,
            0x85,
            0xa0,
            0x1680,
            0x2000,
            0x2001,
            0x2002,
            0x2003,
            0x2004,
            0x2005,
            0x2006,
            0x2007,
            0x2008,
            0x2009,
            0x200a,
            0x2028,
            0x2029,
            0x202f,
            0x205f,
            0x3000,
        ].contains(c as int),
{
    let codes = seq![
        0x9int,
        0xa,
        0xb,
        0xc,
        0xd,
        0x20,
        0x85,
        0xa0,
        0x1680,
        0x2000,
        0x2001,
        0x2002,
        0x2003,
        0x2004,
        0x2005,
        0x2006,
        0x2007,
        0x2008,
        0x2009,
        0x200a,
        0x2028,
        0x2029,
        0x202f,
        0x205f,
        0x3000,
    ];
    let code = c as int;
    if text::is_white_space(c) {
        let i = if code <= 0xd {
            code - 0x9
        } else if code == 0x20 {
            5
        } else if code == 0x85 {
            6
        } else if code == 0xa0 {
            7
        } else if code == 0x1680 {
            8
        } else if code <= 0x200a {
            code - 0x2000 + 9
        } else if code == 0x2028 {
            20
        } else if code == 0x2029 {
            21
        } else if code == 0x202f {
            22
        } else if code == 0x205f {
            23
        } else {
            24
        };
        assert(codes[i] == code);
    }
}

} // verus!
