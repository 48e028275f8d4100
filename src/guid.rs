//! Stable, GUID-shaped identifiers.
use vstd::prelude::*;

use crate::dispatch::{pair_hash, parts_hash};
use crate::text::char_to_string;
use vstd::string::StringSliceAdditionalSpecFns;

verus! {

/// The lower-case hexadecimal digits.
pub open spec fn hex_digits() -> Seq<char> {
    seq!['0', '1', '2', '3', '4', '5', '6', '7', '8', '9', 'a', 'b', 'c', 'd', 'e', 'f']
}

/// Two lower-case hex digits per byte, high nibble first.
pub open spec fn hex_of(bytes: Seq<u8>) -> Seq<char> {
    Seq::new(
        2 * bytes.len(),
        |i: int|
            if i % 2 == 0 {
                hex_digits()[bytes[i / 2] as int / 16]
            } else {
                hex_digits()[bytes[i / 2] as int % 16]
            },
    )
}

/// Number of dashes before position `k` of a GUID.
pub open spec fn dashes_before(k: int) -> int {
    (if k > 8 { 1int } else { 0 }) + (if k > 13 { 1int } else { 0 }) + (if k > 18 { 1int } else { 0 })
        + (if k > 23 { 1int } else { 0 })
}

/// Whether position `k` of a GUID holds a dash.
pub open spec fn is_dash_position(k: int) -> bool {
    k == 8 || k == 13 || k == 18 || k == 23
}

/// Thirty-two hex digits grouped 8-4-4-4-12 with dashes.
pub open spec fn guid_text(hex: Seq<char>) -> Seq<char> {
    Seq::new(36, |k: int| if is_dash_position(k) { '-' } else { hex[k - dashes_before(k)] })
}

/// The eight big-endian bytes of `x`.
pub open spec fn be_bytes(x: u64) -> Seq<u8> {
    Seq::new(8, |i: int| ((x >> ((56 - 8 * i) as u64)) & 0xffu64) as u8)
}

/// The eight big-endian bytes of `x`.
pub fn to_be_bytes(x: u64) -> (r: [u8; 8])
    ensures
        r@ == be_bytes(x),
{
    let mut out: [u8; 8] = [0u8; 8];
    let mut i: usize = 0;
    while i < 8
        invariant
            i <= 8,
            out@.len() == 8,
            forall|j: int| 0 <= j < i ==> out@[j] == #[trigger] be_bytes(x)[j],
        decreases 8 - i,
    {
        let shift: u64 = 56 - 8 * (i as u64);
        out[i] = ((x >> shift) & 0xffu64) as u8;
        i = i + 1;
    }
    assert(out@ =~= be_bytes(x));
    out
}

/// The upper-case hexadecimal digits.
pub open spec fn upper_hex_digits() -> Seq<char> {
    seq!['0', '1', '2', '3', '4', '5', '6', '7', '8', '9', 'A', 'B', 'C', 'D', 'E', 'F']
}

/// Sixteen upper-case hex digits of `x`, most significant first.
pub open spec fn upper_hex_u64(x: u64) -> Seq<char> {
    Seq::new(16, |i: int| upper_hex_digits()[((x >> ((60 - 4 * i) as u64)) & 0xfu64) as int])
}

/// Appends the sixteen upper-case hex digits of `x` to `out`.
pub fn push_upper_hex_u64(out: &mut String, x: u64)
    ensures
        final(out)@ == old(out)@ + upper_hex_u64(x),
{
    let digits: [char; 16] = ['0', '1', '2', '3', '4', '5', '6', '7', '8', '9', 'A', 'B', 'C', 'D', 'E', 'F'];
    assert(digits@ =~= upper_hex_digits());
    let mut i: usize = 0;
    while i < 16
        invariant
            i <= 16,
            digits@ == upper_hex_digits(),
            out@ =~= old(out)@ + upper_hex_u64(x).subrange(0, i as int),
        decreases 16 - i,
    {
        let shift: u64 = 60 - 4 * (i as u64);
        let nibble: u64 = (x >> shift) & 0xfu64;
        assert(nibble < 16) by (bit_vector)
            requires nibble == (x >> shift) & 0xfu64;
        let c = digits[nibble as usize];
        let piece = char_to_string(c);
        out.append(piece.as_str());
        i = i + 1;
        assert(out@ =~= old(out)@ + upper_hex_u64(x).subrange(0, i as int));
    }
}

/// Formats sixteen bytes as a lower-case GUID, `xxxxxxxx-xxxx-xxxx-xxxx-xxxxxxxxxxxx`.
pub fn guid_from_bytes(high: [u8; 8], low: [u8; 8]) -> (r: String)
    ensures
        r@ == guid_text(hex_of(high@ + low@)),
{
    let digits: [char; 16] = ['0', '1', '2', '3', '4', '5', '6', '7', '8', '9', 'a', 'b', 'c', 'd', 'e', 'f'];
    assert(digits@ =~= hex_digits());
    let ghost bytes = high@ + low@;
    let ghost hex = hex_of(bytes);
    let ghost text = guid_text(hex);
    let mut out = String::new();
    let mut k: usize = 0;
    while k < 36
        invariant
            k <= 36,
            digits@ == hex_digits(),
            bytes == high@ + low@,
            hex == hex_of(bytes),
            text == guid_text(hex),
            out@ =~= text.subrange(0, k as int),
        decreases 36 - k,
    {
        let c: char = if k == 8 || k == 13 || k == 18 || k == 23 {
            '-'
        } else {
            let dashes: usize = (if k > 8 { 1usize } else { 0 }) + (if k > 13 { 1usize } else { 0 })
                + (if k > 18 { 1usize } else { 0 }) + (if k > 23 { 1usize } else { 0 });
            let h: usize = k - dashes;
            let b: u8 = if h < 16 { high[h / 2] } else { low[(h - 16) / 2] };
            assert(b == bytes[h as int / 2]);
            let nibble: u8 = if h % 2 == 0 { b / 16 } else { b % 16 };
            digits[nibble as usize]
        };
        assert(c == text[k as int]);
        let piece = char_to_string(c);
        out.append(piece.as_str());
        k = k + 1;
        assert(out@ =~= text.subrange(0, k as int));
    }
    out
}

/// A GUID derived from two strings alone: the standard hasher's digest of
/// (seed, salt) gives its first half and that of (salt, seed) its second.
pub fn stable_guid(seed: &str, salt: &str) -> (r: String)
    ensures
        r@ == guid_text(
            hex_of(
                be_bytes(parts_hash(seq![seed.spec_bytes(), salt.spec_bytes()])) + be_bytes(
                    parts_hash(seq![salt.spec_bytes(), seed.spec_bytes()]),
                ),
            ),
        ),
{
    let high = pair_hash(seed, salt);
    let low = pair_hash(salt, seed);
    guid_from_bytes(to_be_bytes(high), to_be_bytes(low))
}

} // verus!
