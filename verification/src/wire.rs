//! Sixteen-bit fields, sent low byte first.

use vstd::prelude::*;
use byteorder::{ByteOrder, LittleEndian};

verus! {

/// The two bytes of `n`, low byte first.
pub open spec fn u16_le(n: u16) -> Seq<u8> {
    seq![(n % 256) as u8, (n / 256) as u8]
}

/// The low sixteen bits of a count: what a sixteen-bit field can carry of it.
pub open spec fn low16(n: int) -> u16 {
    (n % 0x10000) as u16
}

/// The low eight bits of a number: what a one-byte field can carry of it.
pub open spec fn low8(n: int) -> u8 {
    (n % 0x100) as u8
}

/// The low eight bits of `n`.
pub fn low_byte(n: i32) -> (b: u8)
    ensures
        b == low8(n as int),
{
    if n >= 0 {
        (n % 0x100) as u8
    } else {
        let k: i32 = -(n + 1);
        (255 - (k % 0x100)) as u8
    }
}

/// Calls `byteorder::ByteOrder::write_u16` of `LittleEndian` on a buffer of
/// two bytes. Trusted: the buffer then holds the low byte of `n`, followed by
/// its high byte.
#[verifier::external_body]
pub(crate) fn u16_le_bytes(n: u16) -> (r: [u8; 2])
    ensures
        r@ == u16_le(n),
{
    let mut buf = [0u8; 2];
    LittleEndian::write_u16(&mut buf, n);
    buf
}

} // verus!
