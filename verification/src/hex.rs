use vstd::prelude::*;
use crate::text::push_char;

verus! {

/// The lowercase hexadecimal digit for a value below sixteen.
pub open spec fn hex_digit(n: int) -> char {
    if 0 <= n < 10 {
        (48 + n) as char
    } else {
        (87 + n) as char
    }
}

/// Lowercase hexadecimal text of a byte string: two digits per byte, the high
/// half first.
pub open spec fn hex_lower(bytes: Seq<u8>) -> Seq<char> {
    Seq::new(
        2 * bytes.len(),
        |i: int| if i % 2 == 0 {
            hex_digit(bytes[i / 2] as int / 16)
        } else {
            hex_digit(bytes[i / 2] as int % 16)
        },
    )
}

/// Lowercase hexadecimal text of a number, without leading zeros.
pub open spec fn hex_of_nat(n: nat) -> Seq<char>
    decreases n,
{
    if n < 16 {
        seq![hex_digit(n as int)]
    } else {
        hex_of_nat(n / 16).push(hex_digit((n % 16) as int))
    }
}

/// Whether `c` is one of `0`-`9` or `a`-`f`.
pub open spec fn is_lower_hex_digit(c: char) -> bool {
    ('0' <= c <= '9') || ('a' <= c <= 'f')
}

/// Whether `s` is lowercase hexadecimal text throughout.
pub open spec fn is_lower_hex(s: Seq<char>) -> bool {
    forall|i: int| 0 <= i < s.len() ==> is_lower_hex_digit(#[trigger] s[i])
}

/// The hexadecimal text of a byte string is twice as long as the string, and
/// lowercase hexadecimal throughout.
pub proof fn lemma_hex_lower_shape(bytes: Seq<u8>)
    ensures
        hex_lower(bytes).len() == 2 * bytes.len(),
        is_lower_hex(hex_lower(bytes)),
{
    assert forall|i: int| 0 <= i < hex_lower(bytes).len() implies is_lower_hex_digit(
        #[trigger] hex_lower(bytes)[i],
    ) by {
        let b = bytes[i / 2] as int;
        assert(0 <= b / 16 < 16 && 0 <= b % 16 < 16);
    }
}

/// The digit character for `n`.
pub fn digit_char(n: u8) -> (c: char)
    requires
        n < 16,
    ensures
        c == hex_digit(n as int),
        is_lower_hex_digit(c),
{
    match n {
        0 => '0',
        1 => '1',
        2 => '2',
        3 => '3',
        4 => '4',
        5 => '5',
        6 => '6',
        7 => '7',
        8 => '8',
        9 => '9',
        10 => 'a',
        11 => 'b',
        12 => 'c',
        13 => 'd',
        14 => 'e',
        _ => 'f',
    }
}

/// Whether `text` is lowercase hexadecimal throughout.
pub fn is_lower_hex_text(text: &str) -> (ok: bool)
    ensures
        ok == is_lower_hex(text@),
{
    for c in it: text.chars()
        invariant
            it.seq() == text@,
            forall|i: int| 0 <= i < it.index() ==> is_lower_hex_digit(#[trigger] text@[i]),
    {
        if !(('0' <= c && c <= '9') || ('a' <= c && c <= 'f')) {
            assert(!is_lower_hex_digit(text@[it.index() as int]));
            return false;
        }
    }
    true
}

/// Encodes `bytes` as lowercase hexadecimal text.
pub fn encode_hex(bytes: &[u8]) -> (text: String)
    ensures
        text@ == hex_lower(bytes@),
{
    let mut text = String::new();
    let mut i: usize = 0;
    while i < bytes.len()
        invariant
            i <= bytes.len(),
            text@ == hex_lower(bytes@.take(i as int)),
        decreases bytes.len() - i,
    {
        let b: u8 = bytes[i];
        push_char(&mut text, digit_char(b / 16));
        push_char(&mut text, digit_char(b % 16));
        i += 1;
        assert(text@ =~= hex_lower(bytes@.take(i as int)));
    }
    assert(bytes@.take(i as int) =~= bytes@);
    text
}

/// Appends the lowercase hexadecimal text of `n` to `text`.
fn push_hex(text: &mut String, n: u64)
    ensures
        final(text)@ == old(text)@ + hex_of_nat(n as nat),
    decreases n,
{
    if n >= 16 {
        push_hex(text, n / 16);
    }
    push_char(text, digit_char((n % 16) as u8));
    assert(final(text)@ =~= old(text)@ + hex_of_nat(n as nat));
}

/// Lowercase hexadecimal text of `n`, without leading zeros.
pub fn hex_of_u64(n: u64) -> (text: String)
    ensures
        text@ == hex_of_nat(n as nat),
{
    let mut text = String::new();
    push_hex(&mut text, n);
    assert(text@ =~= hex_of_nat(n as nat));
    text
}

} // verus!
