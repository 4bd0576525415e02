use vstd::prelude::*;
use byteorder::{ByteOrder, LittleEndian};

verus! {

/// The number whose little-endian encoding is the first four bytes of `b`.
pub open spec fn le_u32(b: Seq<u8>) -> u32 {
    (b[0] as int + b[1] as int * 0x100 + b[2] as int * 0x1_0000 + b[3] as int * 0x100_0000) as u32
}

/// The four bytes that encode `n` in little-endian order.
pub open spec fn le_bytes(n: u32) -> Seq<u8> {
    seq![
        (n as int % 0x100) as u8,
        (n as int / 0x100 % 0x100) as u8,
        (n as int / 0x1_0000 % 0x100) as u8,
        (n as int / 0x100_0000) as u8,
    ]
}

/// Calls `byteorder::LittleEndian::read_u32`. Trusted: the result is the
/// number that the first four bytes of `bytes` encode, lowest byte first. The
/// outside function panics on fewer than four bytes, which `requires` leaves
/// out.
#[verifier::external_body]
pub(crate) fn read_u32_le(bytes: &[u8]) -> (n: u32)
    requires
        bytes@.len() >= 4,
    ensures
        n == le_u32(bytes@),
{
    LittleEndian::read_u32(bytes)
}

/// Calls `byteorder::LittleEndian::read_i32`. Trusted: the result is the
/// number that `read_u32` gives for the same bytes, taken as a signed
/// two's-complement value. The outside function panics on fewer than four
/// bytes, which `requires` leaves out.
#[verifier::external_body]
pub(crate) fn read_i32_le(bytes: &[u8]) -> (n: i32)
    requires
        bytes@.len() >= 4,
    ensures
        n == le_u32(bytes@) as i32,
{
    LittleEndian::read_i32(bytes)
}

/// Calls `byteorder::LittleEndian::write_u32` on a fresh array of four
/// bytes. Trusted: the array then holds the bytes of `n`, lowest byte first.
#[verifier::external_body]
pub(crate) fn write_u32_le(n: u32) -> (bytes: [u8; 4])
    ensures
        bytes@ == le_bytes(n),
{
    let mut buf = [0u8; 4];
    LittleEndian::write_u32(&mut buf, n);
    buf
}

} // verus!
