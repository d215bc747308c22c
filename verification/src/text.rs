//! Text built and examined character by character.

use vstd::prelude::*;

verus! {

/// The characters of the Unicode property `White_Space`.
pub open spec fn is_white_space(c: char) -> bool {
    let code = c as int;
    ||| 0x0009 <= code <= 0x000d
    ||| code == 0x0020
    ||| code == 0x0085
    ||| code == 0x00a0
    ||| code == 0x1680
    ||| 0x2000 <= code <= 0x200a
    ||| code == 0x2028
    ||| code == 0x2029
    ||| code == 0x202f
    ||| code == 0x205f
    ||| code == 0x3000
}

/// `text` holds nothing but white space.
pub open spec fn is_blank(text: Seq<char>) -> bool {
    forall|i: int| 0 <= i < text.len() ==> is_white_space(#[trigger] text[i])
}

/// `text` from its first character that is not white space on.
pub open spec fn without_leading_space(text: Seq<char>) -> Seq<char>
    decreases text.len(),
{
    if text.len() > 0 && is_white_space(text.first()) {
        without_leading_space(text.drop_first())
    } else {
        text
    }
}

/// `text` up to its last character that is not white space.
pub open spec fn without_trailing_space(text: Seq<char>) -> Seq<char>
    decreases text.len(),
{
    if text.len() > 0 && is_white_space(text.last()) {
        without_trailing_space(text.drop_last())
    } else {
        text
    }
}

/// Trusted: `str::trim` removes leading and trailing white space, which its
/// documentation defines as the characters of the Unicode property `White_Space`.
pub assume_specification[ str::trim ](s: &str) -> (trimmed: &str)
    ensures
        trimmed@ == without_trailing_space(without_leading_space(s@)),
;

proof fn lemma_leading_space(text: Seq<char>)
    ensures
        without_leading_space(text).len() == 0 <==> is_blank(text),
        without_leading_space(text).len() > 0 ==> !is_white_space(
            without_leading_space(text).first(),
        ),
    decreases text.len(),
{
    if text.len() > 0 {
        if is_white_space(text.first()) {
            let rest = text.drop_first();
            lemma_leading_space(rest);
            if is_blank(rest) {
                assert forall|i: int| 0 <= i < text.len() implies is_white_space(
                    #[trigger] text[i],
                ) by {
                    if i > 0 {
                        assert(text[i] == rest[i - 1]);
                    }
                }
            } else {
                let i = choose|i: int| 0 <= i < rest.len() && !is_white_space(#[trigger] rest[i]);
                assert(!is_white_space(text[i + 1]));
            }
        } else {
            assert(!is_white_space(text[0]));
        }
    }
}

proof fn lemma_trailing_space(text: Seq<char>)
    requires
        text.len() > 0,
        !is_white_space(text.first()),
    ensures
        without_trailing_space(text).len() > 0,
    decreases text.len(),
{
    if is_white_space(text.last()) {
        assert(text.len() > 1);
        assert(text.drop_last().first() == text.first());
        lemma_trailing_space(text.drop_last());
    }
}

/// Trimming leaves nothing of a text exactly when the text is blank.
pub proof fn lemma_trimmed_is_empty(text: Seq<char>)
    ensures
        without_trailing_space(without_leading_space(text)).len() == 0 <==> is_blank(text),
{
    lemma_leading_space(text);
    if !is_blank(text) {
        lemma_trailing_space(without_leading_space(text));
    }
}

/// Whether `text` is empty once trimmed.
pub fn blank(text: &str) -> (result: bool)
    ensures
        result == is_blank(text@),
{
    proof {
        lemma_trimmed_is_empty(text@);
    }
    text.trim().is_empty()
}

/// The digit of value `value`, in lower case: `0` to `9`, then `a` to `f`.
pub open spec fn digit_char(value: int) -> char
    recommends
        0 <= value < 16,
{
    if value < 10 {
        (0x30 + value) as char
    } else {
        (0x61 + value - 10) as char
    }
}

/// The text of the digit `value`.
fn digit_text(value: u8) -> (text: &'static str)
    requires
        value < 16,
    ensures
        text@ == seq![digit_char(value as int)],
{
    proof {
        reveal_strlit("0");
        reveal_strlit("1");
        reveal_strlit("2");
        reveal_strlit("3");
        reveal_strlit("4");
        reveal_strlit("5");
        reveal_strlit("6");
        reveal_strlit("7");
        reveal_strlit("8");
        reveal_strlit("9");
        reveal_strlit("a");
        reveal_strlit("b");
        reveal_strlit("c");
        reveal_strlit("d");
        reveal_strlit("e");
        reveal_strlit("f");
    }
    match value {
        0 => "0",
        1 => "1",
        2 => "2",
        3 => "3",
        4 => "4",
        5 => "5",
        6 => "6",
        7 => "7",
        8 => "8",
        9 => "9",
        10 => "a",
        11 => "b",
        12 => "c",
        13 => "d",
        14 => "e",
        _ => "f",
    }
}

/// The four bits of `value` that its hexadecimal digit `i` stands for, the
/// most significant digit being digit 0 of 16.
pub open spec fn nibble(value: u64, i: int) -> u64 {
    (value >> ((60 - 4 * i) as u64)) & 0xf
}

/// `value` in hexadecimal, in lower case, padded with zeros to 16 digits.
pub open spec fn hex_digits(value: u64) -> Seq<char> {
    Seq::new(16, |i: int| digit_char(nibble(value, i) as int))
}

/// `value` in hexadecimal, in lower case, padded with zeros to 16 digits.
pub fn hex_text(value: u64) -> (text: String)
    ensures
        text@ == hex_digits(value),
{
    let mut text = String::new();
    let mut i: u64 = 0;
    while i < 16
        invariant
            i <= 16,
            text@ == hex_digits(value).take(i as int),
        decreases 16 - i,
    {
        let shift: u64 = 60 - 4 * i;
        let bits: u64 = (value >> shift) & 0xf;
        assert((value >> shift) & 0xf < 16) by (bit_vector);
        text.append(digit_text(bits as u8));
        assert(hex_digits(value).take(i + 1) =~= hex_digits(value).take(i as int).push(
            hex_digits(value)[i as int],
        ));
        i = i + 1;
    }
    assert(hex_digits(value).take(16) =~= hex_digits(value));
    text
}

/// `value` in decimal, without leading zeros.
pub open spec fn decimal_digits(value: nat) -> Seq<char>
    decreases value,
{
    if value < 10 {
        seq![digit_char(value as int)]
    } else {
        decimal_digits(value / 10).push(digit_char((value % 10) as int))
    }
}

/// `value` in decimal, padded with zeros to at least three digits.
pub open spec fn padded_digits(value: nat) -> Seq<char> {
    let digits = decimal_digits(value);
    if digits.len() < 3 {
        Seq::new((3 - digits.len()) as nat, |i: int| '0') + digits
    } else {
        digits
    }
}

/// `value` in decimal, without leading zeros.
fn decimal_text(value: usize) -> (text: String)
    ensures
        text@ == decimal_digits(value as nat),
    decreases value,
{
    if value < 10 {
        digit_text(value as u8).to_string()
    } else {
        let mut text = decimal_text(value / 10);
        text.append(digit_text((value % 10) as u8));
        text
    }
}

/// `value` in decimal, padded with zeros to at least three digits.
pub fn padded_text(value: usize) -> (text: String)
    ensures
        text@ == padded_digits(value as nat),
{
    proof {
        lemma_digit_count(value as nat);
        reveal_strlit("0");
        reveal_strlit("00");
    }
    let digits = decimal_text(value);
    if value < 10 {
        "00".to_string().concat(digits.as_str())
    } else if value < 100 {
        "0".to_string().concat(digits.as_str())
    } else {
        digits
    }
}

proof fn lemma_digit_count(value: nat)
    ensures
        value < 10 ==> decimal_digits(value).len() == 1,
        10 <= value < 100 ==> decimal_digits(value).len() == 2,
        100 <= value ==> decimal_digits(value).len() >= 3,
    decreases value,
{
    reveal_with_fuel(decimal_digits, 3);
    if value >= 1000 {
        lemma_digit_count(value / 10);
    }
}

/// What a text of decimal digits stands for.
spec fn decimal_value(digits: Seq<char>) -> int
    decreases digits.len(),
{
    if digits.len() == 0 {
        0
    } else {
        10 * decimal_value(digits.drop_last()) + (digits.last() as int - 0x30)
    }
}

proof fn lemma_decimal_value(value: nat)
    ensures
        decimal_value(decimal_digits(value)) == value,
    decreases value,
{
    reveal_with_fuel(decimal_value, 2);
    let digits = decimal_digits(value);
    if value < 10 {
        assert(digits.drop_last() =~= Seq::empty());
    } else {
        lemma_decimal_value(value / 10);
        assert(digits.drop_last() =~= decimal_digits(value / 10));
    }
}

proof fn lemma_leading_zeros(count: nat, digits: Seq<char>)
    ensures
        decimal_value(Seq::new(count, |i: int| '0') + digits) == decimal_value(digits),
    decreases count + digits.len(),
{
    let zeros = Seq::new(count, |i: int| '0');
    let padded = zeros + digits;
    if digits.len() > 0 {
        lemma_leading_zeros(count, digits.drop_last());
        assert(padded.drop_last() =~= zeros + digits.drop_last());
    } else if count > 0 {
        let fewer = Seq::new((count - 1) as nat, |i: int| '0');
        lemma_leading_zeros((count - 1) as nat, digits);
        assert(padded.drop_last() =~= fewer + digits);
        assert(padded.last() == '0');
    } else {
        assert(padded =~= digits);
    }
}

/// No two numbers have the same padded decimal text.
pub proof fn lemma_padded_digits_differ(a: nat, b: nat)
    ensures
        padded_digits(a) == padded_digits(b) ==> a == b,
{
    lemma_decimal_value(a);
    lemma_decimal_value(b);
    lemma_leading_zeros((3 - decimal_digits(a).len()) as nat, decimal_digits(a));
    lemma_leading_zeros((3 - decimal_digits(b).len()) as nat, decimal_digits(b));
}

/// No two numbers have the same hexadecimal text.
pub proof fn lemma_hex_digits_differ(a: u64, b: u64)
    ensures
        hex_digits(a) == hex_digits(b) ==> a == b,
{
    if hex_digits(a) == hex_digits(b) {
        assert forall|i: int| 0 <= i < 16 implies #[trigger] nibble(a, i) == nibble(b, i) by {
            let shift = (60 - 4 * i) as u64;
            assert((a >> shift) & 0xf < 16) by (bit_vector);
            assert((b >> shift) & 0xf < 16) by (bit_vector);
            assert(hex_digits(a)[i] == hex_digits(b)[i]);
        }
        assert(nibble(a, 0) == nibble(b, 0));
        assert(nibble(a, 1) == nibble(b, 1));
        assert(nibble(a, 2) == nibble(b, 2));
        assert(nibble(a, 3) == nibble(b, 3));
        assert(nibble(a, 4) == nibble(b, 4));
        assert(nibble(a, 5) == nibble(b, 5));
        assert(nibble(a, 6) == nibble(b, 6));
        assert(nibble(a, 7) == nibble(b, 7));
        assert(nibble(a, 8) == nibble(b, 8));
        assert(nibble(a, 9) == nibble(b, 9));
        assert(nibble(a, 10) == nibble(b, 10));
        assert(nibble(a, 11) == nibble(b, 11));
        assert(nibble(a, 12) == nibble(b, 12));
        assert(nibble(a, 13) == nibble(b, 13));
        assert(nibble(a, 14) == nibble(b, 14));
        assert(nibble(a, 15) == nibble(b, 15));
        assert(a == b) by (bit_vector)
            requires
                (a >> 60u64) & 0xf == (b >> 60u64) & 0xf,
                (a >> 56u64) & 0xf == (b >> 56u64) & 0xf,
                (a >> 52u64) & 0xf == (b >> 52u64) & 0xf,
                (a >> 48u64) & 0xf == (b >> 48u64) & 0xf,
                (a >> 44u64) & 0xf == (b >> 44u64) & 0xf,
                (a >> 40u64) & 0xf == (b >> 40u64) & 0xf,
                (a >> 36u64) & 0xf == (b >> 36u64) & 0xf,
                (a >> 32u64) & 0xf == (b >> 32u64) & 0xf,
                (a >> 28u64) & 0xf == (b >> 28u64) & 0xf,
                (a >> 24u64) & 0xf == (b >> 24u64) & 0xf,
                (a >> 20u64) & 0xf == (b >> 20u64) & 0xf,
                (a >> 16u64) & 0xf == (b >> 16u64) & 0xf,
                (a >> 12u64) & 0xf == (b >> 12u64) & 0xf,
                (a >> 8u64) & 0xf == (b >> 8u64) & 0xf,
                (a >> 4u64) & 0xf == (b >> 4u64) & 0xf,
                (a >> 0u64) & 0xf == (b >> 0u64) & 0xf,
        ;
    }
}

} // verus!
