//! Little-endian layout of integers inside a caller-owned buffer.

use byteorder::{ByteOrder, LittleEndian};
use vstd::prelude::*;

verus! {

/// The two bytes of `n`, least significant first.
pub open spec fn le_bytes_u16(n: u16) -> Seq<u8> {
    seq![(n % 256) as u8, (n / 256) as u8]
}

/// The four bytes of `n`, least significant first.
pub open spec fn le_bytes_u32(n: u32) -> Seq<u8> {
    seq![
        (n % 256) as u8,
        (n / 256 % 256) as u8,
        (n / 65536 % 256) as u8,
        (n / 16777216) as u8,
    ]
}

/// The 16-bit value whose little-endian bytes are the first two of `s`.
pub open spec fn u16_from_le_bytes(s: Seq<u8>) -> int
    recommends
        s.len() >= 2,
{
    s[0] as int + 256 * (s[1] as int)
}

/// The 32-bit value whose little-endian bytes are the first four of `s`.
pub open spec fn u32_from_le_bytes(s: Seq<u8>) -> int
    recommends
        s.len() >= 4,
{
    s[0] as int + 256 * (s[1] as int) + 65536 * (s[2] as int) + 16777216 * (s[3] as int)
}

/// `buf` with the bytes of `field` laid over it from index `at` on; every other
/// byte of `buf` stays as it is.
pub open spec fn overlay(buf: Seq<u8>, at: int, field: Seq<u8>) -> Seq<u8> {
    Seq::new(
        buf.len(),
        |i: int|
            if at <= i < at + field.len() {
                field[i - at]
            } else {
                buf[i]
            },
    )
}

/// Reading back the little-endian bytes of a 16-bit value gives that value.
pub proof fn lemma_u16_le_round_trip(n: u16)
    ensures
        le_bytes_u16(n).len() == 2,
        u16_from_le_bytes(le_bytes_u16(n)) == n,
{
}

/// Reading back the little-endian bytes of a 32-bit value gives that value.
pub proof fn lemma_u32_le_round_trip(n: u32)
    ensures
        le_bytes_u32(n).len() == 4,
        u32_from_le_bytes(le_bytes_u32(n)) == n,
{
}

/// Laying one field over a buffer and then a second one directly behind it is
/// the same as laying their concatenation over the buffer.
pub proof fn lemma_overlay_append(buf: Seq<u8>, at: int, first: Seq<u8>, second: Seq<u8>)
    requires
        0 <= at,
    ensures
        overlay(overlay(buf, at, first), at + first.len(), second) =~= overlay(
            buf,
            at,
            first + second,
        ),
{
}

/// What a serializer leaves at the front of a buffer is the encoding alone,
/// whatever the buffer held before: serializing one value into two buffers
/// gives the same bytes.
pub proof fn lemma_overlay_prefix(first: Seq<u8>, second: Seq<u8>, field: Seq<u8>)
    requires
        field.len() <= first.len(),
        field.len() <= second.len(),
    ensures
        overlay(first, 0, field).take(field.len() as int) == field,
        overlay(second, 0, field).take(field.len() as int) == field,
        overlay(first, 0, field).skip(field.len() as int) == first.skip(field.len() as int),
{
    assert(overlay(first, 0, field).take(field.len() as int) =~= field);
    assert(overlay(second, 0, field).take(field.len() as int) =~= field);
    assert(overlay(first, 0, field).skip(field.len() as int) =~= first.skip(field.len() as int));
}

/// Copies all of `src` into `bytes` from index `at` on. No other byte changes.
pub fn copy_bytes(bytes: &mut [u8], at: usize, src: &[u8])
    requires
        at + src@.len() <= old(bytes)@.len(),
    ensures
        final(bytes)@ == overlay(old(bytes)@, at as int, src@),
{
    let n: usize = src.len();
    let total: usize = bytes.len();
    let mut i: usize = 0;
    while i < n
        invariant
            n == src@.len(),
            total == bytes@.len(),
            i <= n,
            at + n <= bytes@.len(),
            bytes@ == overlay(old(bytes)@, at as int, src@.take(i as int)),
        decreases n - i,
    {
        bytes[at + i] = src[i];
        i += 1;
        assert(bytes@ =~= overlay(old(bytes)@, at as int, src@.take(i as int)));
    }
    assert(src@.take(n as int) =~= src@);
}

/// `byteorder::LittleEndian::write_u16` on the part of `bytes` that starts at
/// `at`: the two bytes there become `n`, least significant first, and no other
/// byte changes. The outside function panics on fewer than two bytes, which the
/// precondition rules out.
#[verifier::external_body]
pub(crate) fn write_u16_le(bytes: &mut [u8], at: usize, n: u16)
    requires
        at + 2 <= old(bytes)@.len(),
    ensures
        final(bytes)@ == overlay(old(bytes)@, at as int, le_bytes_u16(n)),
{
    LittleEndian::write_u16(&mut bytes[at..], n);
}

/// `byteorder::LittleEndian::read_u16` on the part of `bytes` that starts at
/// `at`: the value whose least significant byte is the one at `at` and whose
/// most significant byte is the next one. The outside function panics on fewer
/// than two bytes, which the precondition rules out.
#[verifier::external_body]
pub(crate) fn read_u16_le(bytes: &[u8], at: usize) -> (r: u16)
    requires
        at + 2 <= bytes@.len(),
    ensures
        r == u16_from_le_bytes(bytes@.skip(at as int)),
{
    LittleEndian::read_u16(&bytes[at..])
}

/// `byteorder::LittleEndian::write_u32` on the part of `bytes` that starts at
/// `at`: the four bytes there become `n`, least significant first, and no other
/// byte changes. The outside function panics on fewer than four bytes, which
/// the precondition rules out.
#[verifier::external_body]
pub(crate) fn write_u32_le(bytes: &mut [u8], at: usize, n: u32)
    requires
        at + 4 <= old(bytes)@.len(),
    ensures
        final(bytes)@ == overlay(old(bytes)@, at as int, le_bytes_u32(n)),
{
    LittleEndian::write_u32(&mut bytes[at..], n);
}

} // verus!
