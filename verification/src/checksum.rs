//! The frame check sequence.

use vstd::prelude::*;

verus! {

/// The CRC-16/CCITT-FALSE checksum of a byte string.
///
/// The checksum is computed by the `crc16` crate and is not defined here;
/// this name only says that it is a function of the bytes.
pub uninterp spec fn crc16_ccitt_false(bytes: Seq<u8>) -> u16;

/// Calls `crc16::State::<crc16::CCITT_FALSE>::calculate`.
///
/// Trusted: the result is the checksum of `bytes`, whatever the bytes are;
/// the call neither panics nor keeps state between calls.
#[verifier::external_body]
pub(crate) fn calculate(bytes: &[u8]) -> (crc: u16)
    ensures
        crc == crc16_ccitt_false(bytes@),
{
    crc16::State::<crc16::CCITT_FALSE>::calculate(bytes)
}

} // verus!
