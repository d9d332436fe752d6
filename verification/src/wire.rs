//! Integers as they lie in the payloads of the two peripherals:
//! little-endian fields at fixed offsets.

use byteorder::{ByteOrder, LittleEndian};
use vstd::prelude::*;

verus! {

/// The unsigned 16-bit integer whose little-endian form lies at `at`.
pub open spec fn le_u16(bytes: Seq<u8>, at: int) -> int {
    bytes[at] + 256 * bytes[at + 1]
}

/// The unsigned 24-bit integer whose little-endian form lies at `at`.
pub open spec fn le_u24(bytes: Seq<u8>, at: int) -> int {
    bytes[at] + 256 * bytes[at + 1] + 65536 * bytes[at + 2]
}

/// The unsigned 32-bit integer whose little-endian form lies at `at`.
pub open spec fn le_u32(bytes: Seq<u8>, at: int) -> int {
    bytes[at] + 256 * bytes[at + 1] + 65536 * bytes[at + 2] + 16777216 * bytes[at + 3]
}

/// `byteorder::LittleEndian::read_u16` on the bytes from `at` on. Trusted:
/// the result is the first byte plus 256 times the second, as
/// `u16::from_le_bytes` defines it. The outside function panics on fewer
/// than two bytes, which `requires` excludes.
#[verifier::external_body]
pub(crate) fn read_le_u16(buf: &[u8], at: usize) -> (r: u16)
    requires
        at + 2 <= buf@.len(),
    ensures
        r == le_u16(buf@, at as int),
{
    LittleEndian::read_u16(&buf[at..])
}

/// `byteorder::LittleEndian::read_u32` on the bytes from `at` on. Trusted:
/// the result is the sum of the four bytes, each weighted by 256 to the
/// power of its position. The outside function panics on fewer than four
/// bytes, which `requires` excludes.
#[verifier::external_body]
pub(crate) fn read_le_u32(buf: &[u8], at: usize) -> (r: u32)
    requires
        at + 4 <= buf@.len(),
    ensures
        r == le_u32(buf@, at as int),
{
    LittleEndian::read_u32(&buf[at..])
}

/// `byteorder::LittleEndian::write_u16` on the bytes from `at` on. Trusted:
/// the low byte of `n` is stored at `at`, the high byte after it, and no
/// other byte changes. The outside function panics where fewer than two
/// bytes remain, which `requires` excludes.
#[verifier::external_body]
pub(crate) fn write_le_u16(buf: &mut Vec<u8>, at: usize, n: u16)
    requires
        at + 2 <= old(buf)@.len(),
    ensures
        final(buf)@ == old(buf)@.update(at as int, (n % 256) as u8).update(
            at + 1,
            (n / 256) as u8,
        ),
{
    LittleEndian::write_u16(&mut buf[at..], n)
}

} // verus!
