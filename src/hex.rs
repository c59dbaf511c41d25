//! Lowercase hexadecimal text for byte strings, as stored in the tables.
use vstd::prelude::*;

verus! {

/// The lowercase hexadecimal digit for a value below sixteen.
pub open spec fn hex_digit(n: u8) -> char {
    if n < 10 {
        (('0' as u8) + n) as char
    } else {
        (('a' as u8) + (n - 10)) as char
    }
}

/// Two lowercase digits per byte, most significant digit first.
pub open spec fn hex_of(s: Seq<u8>) -> Seq<char>
    decreases s.len(),
{
    if s.len() == 0 {
        Seq::empty()
    } else {
        hex_of(s.drop_last()) + seq![hex_digit(s.last() / 16), hex_digit(s.last() % 16)]
    }
}

/// The `0x`-prefixed form used for hashes and addresses.
pub open spec fn hex_prefixed(s: Seq<u8>) -> Seq<char> {
    seq!['0', 'x'] + hex_of(s)
}

/// Relies on `String::push`: the character is appended at the end.
#[verifier::external_body]
pub(crate) fn push_char(s: &mut String, c: char)
    ensures
        final(s)@ == old(s)@.push(c),
{
    s.push(c)
}

fn digit_char(n: u8) -> (c: char)
    requires
        n < 16,
    ensures
        c == hex_digit(n),
{
    if n < 10 {
        (48u8 + n) as char
    } else {
        (97u8 + (n - 10)) as char
    }
}

fn append_hex(out: &mut String, bytes: &[u8])
    ensures
        final(out)@ == old(out)@ + hex_of(bytes@),
{
    let ghost start = out@;
    let mut i: usize = 0;
    while i < bytes.len()
        invariant
            i <= bytes@.len(),
            out@ == start + hex_of(bytes@.subrange(0, i as int)),
        decreases bytes@.len() - i,
    {
        let b = bytes[i];
        push_char(out, digit_char(b / 16));
        push_char(out, digit_char(b % 16));
        proof {
            let next = bytes@.subrange(0, i + 1);
            assert(next.drop_last() =~= bytes@.subrange(0, i as int));
            assert(next.last() == b);
        }
        i = i + 1;
    }
    assert(bytes@.subrange(0, bytes@.len() as int) =~= bytes@);
}

/// The bytes as lowercase hexadecimal text, without a prefix.
pub fn to_hex(bytes: &[u8]) -> (r: String)
    ensures
        r@ == hex_of(bytes@),
{
    let mut out = String::new();
    append_hex(&mut out, bytes);
    assert(out@ =~= hex_of(bytes@));
    out
}

/// The bytes as `0x` followed by lowercase hexadecimal text.
pub fn to_hex_prefixed(bytes: &[u8]) -> (r: String)
    ensures
        r@ == hex_prefixed(bytes@),
{
    let mut out = String::new();
    push_char(&mut out, '0');
    push_char(&mut out, 'x');
    append_hex(&mut out, bytes);
    out
}

/// The lowercase hexadecimal text of a number, without leading zeros.
pub open spec fn hex_number(n: nat) -> Seq<char>
    decreases n,
{
    if n < 16 {
        seq![hex_digit(n as u8)]
    } else {
        hex_number(n / 16).push(hex_digit((n % 16) as u8))
    }
}

fn append_hex_number(out: &mut String, n: u64)
    ensures
        final(out)@ == old(out)@ + hex_number(n as nat),
    decreases n,
{
    let ghost before = out@;
    if n < 16 {
        push_char(out, digit_char(n as u8));
    } else {
        append_hex_number(out, n / 16);
        push_char(out, digit_char((n % 16) as u8));
    }
    assert(out@ =~= before + hex_number(n as nat));
}

/// A number as `0x` followed by its lowercase hexadecimal digits.
pub fn u64_hex_prefixed(n: u64) -> (r: String)
    ensures
        r@ == seq!['0', 'x'] + hex_number(n as nat),
{
    let mut out = String::new();
    push_char(&mut out, '0');
    push_char(&mut out, 'x');
    append_hex_number(&mut out, n);
    out
}

} // verus!
