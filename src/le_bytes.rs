//! Little-endian byte encodings of 16- and 32-bit unsigned integers.

use byteorder::{ByteOrder, LittleEndian};
use vstd::prelude::*;

verus! {

/// The two bytes of `n`, least significant first.
pub open spec fn le16(n: int) -> Seq<u8> {
    seq![(n % 0x100) as u8, ((n / 0x100) % 0x100) as u8]
}

/// The four bytes of `n`, least significant first.
pub open spec fn le32(n: int) -> Seq<u8> {
    seq![
        (n % 0x100) as u8,
        ((n / 0x100) % 0x100) as u8,
        ((n / 0x1_0000) % 0x100) as u8,
        ((n / 0x100_0000) % 0x100) as u8,
    ]
}

/// The unsigned integer held little-endian in the two bytes of `b` at `at`.
pub open spec fn read_le16(b: Seq<u8>, at: int) -> int {
    b[at] + 0x100 * b[at + 1]
}

/// The unsigned integer held little-endian in the four bytes of `b` at `at`.
pub open spec fn read_le32(b: Seq<u8>, at: int) -> int {
    b[at] + 0x100 * b[at + 1] + 0x1_0000 * b[at + 2] + 0x100_0000 * b[at + 3]
}

/// Reading back the two bytes of a 16-bit value gives the value.
pub proof fn lemma_le16_round_trip(n: int)
    requires
        0 <= n < 0x1_0000,
    ensures
        read_le16(le16(n), 0) == n,
{
    let b = le16(n);
    assert(b[0] == n % 0x100);
    assert(b[1] == n / 0x100);
}

/// Reading back the four bytes of a 32-bit value gives the value.
pub proof fn lemma_le32_round_trip(n: int)
    requires
        0 <= n < 0x1_0000_0000,
    ensures
        read_le32(le32(n), 0) == n,
{
    let b = le32(n);
    assert(b[0] == n % 0x100);
    assert(b[1] == (n / 0x100) % 0x100);
    assert(b[2] == (n / 0x1_0000) % 0x100);
    assert(b[3] == n / 0x100_0000);
}

/// Relies on byteorder's `LittleEndian::write_u16`, which stores `n` in the first two
/// bytes of the buffer, least significant byte first.
#[verifier::external_body]
pub(crate) fn le_u16(n: u16) -> (r: [u8; 2])
    ensures
        r@ == le16(n as int),
{
    let mut buf = [0u8; 2];
    LittleEndian::write_u16(&mut buf, n);
    buf
}

/// Relies on byteorder's `LittleEndian::write_u32`, which stores `n` in the first four
/// bytes of the buffer, least significant byte first.
#[verifier::external_body]
pub(crate) fn le_u32(n: u32) -> (r: [u8; 4])
    ensures
        r@ == le32(n as int),
{
    let mut buf = [0u8; 4];
    LittleEndian::write_u32(&mut buf, n);
    buf
}

} // verus!
