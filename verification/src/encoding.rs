//! Byte encodings: little-endian integers, hexadecimal text, a
//! length-prefixed encoding of text, and the BLAKE3 hash that replay
//! digests and deterministic draws are built on.
use vstd::prelude::*;
use vstd::string::*;

verus! {

/// The eight little-endian bytes of `x`.
pub open spec fn le_bytes(x: u64) -> Seq<u8> {
    Seq::new(8, |i: int| ((x >> ((8 * i) as u64)) & 0xff) as u8)
}

pub fn push_le_bytes(out: &mut Vec<u8>, x: u64)
    ensures
        final(out)@ == old(out)@ + le_bytes(x),
{
    push_le_prefix(out, x, 8);
    assert(le_bytes(x).subrange(0, 8) =~= le_bytes(x));
}

/// Appends the first `count` little-endian bytes of `x`.
pub fn push_le_prefix(out: &mut Vec<u8>, x: u64, count: u64)
    requires
        count <= 8,
    ensures
        final(out)@ == old(out)@ + le_bytes(x).subrange(0, count as int),
{
    let ghost start = out@;
    let mut i: u64 = 0;
    while i < count
        invariant
            0 <= i <= count <= 8,
            out@ == start + le_bytes(x).subrange(0, i as int),
        decreases 8 - i,
    {
        let b = ((x >> (8 * i)) & 0xff) as u8;
        out.push(b);
        i = i + 1;
        assert(out@ =~= start + le_bytes(x).subrange(0, i as int));
    }
}

/// The number whose little-endian bytes start `b` (its first `k` bytes).
pub open spec fn le_value(b: Seq<u8>, k: nat) -> u64
    decreases k,
{
    if k == 0 || b.len() < k {
        0
    } else {
        le_value(b, (k - 1) as nat) | ((b[k - 1] as u64) << ((8 * (k - 1)) as u64))
    }
}

/// Reads a little-endian `u64` from the first eight bytes.
pub fn read_le_u64(b: &Vec<u8>) -> (r: u64)
    requires
        b@.len() >= 8,
    ensures
        r == le_value(b@, 8),
{
    let mut r: u64 = 0;
    let mut k: u64 = 0;
    while k < 8
        invariant
            0 <= k <= 8,
            b@.len() >= 8,
            r == le_value(b@, k as nat),
        decreases 8 - k,
    {
        r = r | ((b[k as usize] as u64) << (8 * k));
        k = k + 1;
    }
    r
}

/// The lowercase hexadecimal digit for a value below sixteen.
pub open spec fn hex_digit(v: u8) -> char {
    if v < 10 {
        (('0' as u8) + v) as char
    } else {
        (('a' as u8) + (v - 10)) as char
    }
}

/// Two lowercase hexadecimal digits per byte, high nibble first.
pub open spec fn hex_text(b: Seq<u8>) -> Seq<char>
    decreases b.len(),
{
    if b.len() == 0 {
        Seq::empty()
    } else {
        hex_text(b.drop_last()) + seq![hex_digit(b.last() >> 4), hex_digit(b.last() & 0xf)]
    }
}

fn hex_char(v: u8) -> (c: char)
    requires
        v < 16,
    ensures
        c == hex_digit(v),
{
    if v < 10 {
        (('0' as u8) + v) as char
    } else {
        (('a' as u8) + (v - 10)) as char
    }
}

pub fn hex_encode(b: &Vec<u8>) -> (s: String)
    ensures
        s@ == hex_text(b@),
{
    let mut chars: Vec<char> = Vec::new();
    let mut i: usize = 0;
    while i < b.len()
        invariant
            0 <= i <= b@.len(),
            chars@ == hex_text(b@.subrange(0, i as int)),
        decreases b@.len() - i,
    {
        let byte = b[i];
        assert(byte >> 4 < 16) by (bit_vector);
        assert(byte & 0xf < 16) by (bit_vector);
        chars.push(hex_char(byte >> 4));
        chars.push(hex_char(byte & 0xf));
        i = i + 1;
        assert(b@.subrange(0, i as int).drop_last() =~= b@.subrange(0, i - 1));
    }
    assert(b@.subrange(0, b@.len() as int) =~= b@);
    string_from_chars(&chars)
}

/// The four little-endian bytes of a character's scalar value.
pub open spec fn char_bytes(c: char) -> Seq<u8> {
    le_bytes(c as u64).subrange(0, 4)
}

pub open spec fn chars_bytes(s: Seq<char>) -> Seq<u8>
    decreases s.len(),
{
    if s.len() == 0 {
        Seq::empty()
    } else {
        chars_bytes(s.drop_last()) + char_bytes(s.last())
    }
}

/// Text framed by its character count: the count as eight little-endian
/// bytes, then each character as four.
pub open spec fn text_frame(s: Seq<char>) -> Seq<u8> {
    le_bytes(s.len() as u64) + chars_bytes(s)
}

/// The characters of a string, in order.
pub fn string_chars(s: &str) -> (r: Vec<char>)
    ensures
        r@ == s@,
{
    let n = s.unicode_len();
    let mut r: Vec<char> = Vec::new();
    let mut i: usize = 0;
    while i < n
        invariant
            n == s@.len(),
            0 <= i <= n,
            r@ == s@.subrange(0, i as int),
        decreases n - i,
    {
        r.push(s.get_char(i));
        i = i + 1;
    }
    assert(r@ =~= s@);
    r
}

/// Appends the framed text of `s`.
pub fn push_text_frame(out: &mut Vec<u8>, s: &str)
    ensures
        final(out)@ == old(out)@ + text_frame(s@),
{
    let ghost start = out@;
    let chars = string_chars(s);
    push_le_bytes(out, chars.len() as u64);
    let mut i: usize = 0;
    while i < chars.len()
        invariant
            0 <= i <= chars@.len(),
            chars@ == s@,
            out@ == start + le_bytes(s@.len() as u64) + chars_bytes(chars@.subrange(0, i as int)),
        decreases chars@.len() - i,
    {
        let ghost before = out@;
        let c = chars[i];
        push_le_prefix(out, c as u64, 4);
        i = i + 1;
        assert(chars@.subrange(0, i as int).drop_last() =~= chars@.subrange(0, i - 1));
        assert(out@ =~= start + le_bytes(s@.len() as u64) + chars_bytes(
            chars@.subrange(0, i as int),
        ));
    }
    assert(chars@.subrange(0, chars@.len() as int) =~= s@);
}

pub fn push_bytes(out: &mut Vec<u8>, b: &[u8])
    ensures
        final(out)@ == old(out)@ + b@,
{
    let ghost start = out@;
    let mut i: usize = 0;
    while i < b.len()
        invariant
            0 <= i <= b@.len(),
            out@ == start + b@.subrange(0, i as int),
        decreases b@.len() - i,
    {
        out.push(b[i]);
        i = i + 1;
        assert(out@ =~= start + b@.subrange(0, i as int));
    }
    assert(b@.subrange(0, b@.len() as int) =~= b@);
}

/// The 32-byte BLAKE3 hash of `input`.
pub uninterp spec fn blake3_digest(input: Seq<u8>) -> Seq<u8>;

/// Calls `blake3::hash`; trusted to return the crate's 32-byte BLAKE3 hash of
/// the input (named by `blake3_digest`, a function of the bytes alone).
#[verifier::external_body]
fn blake3_hash(input: &[u8]) -> (out: Vec<u8>)
    ensures
        out@ == blake3_digest(input@),
        out@.len() == 32,
{
    blake3::hash(input).as_bytes().to_vec()
}

/// Hashes the bytes with BLAKE3.
pub fn hash_bytes(input: &Vec<u8>) -> (out: Vec<u8>)
    ensures
        out@ == blake3_digest(input@),
        out@.len() == 32,
{
    blake3_hash(input.as_slice())
}

/// Builds a `String` from characters with `String::from_iter`; trusted to
/// hold exactly those characters in order.
#[verifier::external_body]
pub(crate) fn string_from_chars(chars: &Vec<char>) -> (s: String)
    ensures
        s@ == chars@,
{
    String::from_iter(chars.iter())
}

} // verus!
