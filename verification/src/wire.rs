//! Wire-level constants and integer decoding for subnegotiation payloads.

use byteorder::{BigEndian, ByteOrder};
use vstd::prelude::*;

verus! {

/// Terminal-type subnegotiation command: the server asks for a name.
pub const SEND: u8 = 1;

/// Terminal-type subnegotiation command: the client gives a name.
pub const IS: u8 = 0;

/// The 16-bit value whose big-endian encoding is `hi`, `lo`.
pub open spec fn be16(hi: u8, lo: u8) -> u16 {
    (hi as int * 256 + lo as int) as u16
}

/// Calls `byteorder::BigEndian::read_u16`, which reads the first two bytes
/// of `buf` as a big-endian integer and panics on a shorter slice.
#[verifier::external_body]
pub(crate) fn read_be_u16(buf: &[u8]) -> (value: u16)
    requires
        buf@.len() >= 2,
    ensures
        value == be16(buf@[0], buf@[1]),
{
    BigEndian::read_u16(buf)
}

} // verus!
