//! CRC-32C (Castagnoli) checksums over byte strings.

use vstd::prelude::*;

verus! {

/// The CRC-32C (Castagnoli) checksum of a byte string, as computed by
/// `crc32c::crc32c`. It depends on the bytes alone.
pub uninterp spec fn crc32c_of(data: Seq<u8>) -> u32;

/// Calls `crc32c::crc32c`, which computes the CRC-32C of `data` starting from
/// an initial value of zero. Whether the hardware or the software path runs,
/// the value is the same function of the bytes; the contract only gives that
/// function its name.
#[verifier::external_body]
pub(crate) fn crc32c_raw(data: &[u8]) -> (crc: u32)
    ensures
        crc == crc32c_of(data@),
{
    crc32c::crc32c(data)
}

/// The checksum a sender stores next to a payload.
pub fn checksum(data: &[u8]) -> (crc: u32)
    ensures
        crc == crc32c_of(data@),
{
    crc32c_raw(data)
}

} // verus!
