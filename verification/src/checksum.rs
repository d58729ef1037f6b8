//! CRC-32 checksums, computed by the `crc32fast` crate.

use vstd::prelude::*;

verus! {

/// The CRC-32 (IEEE) checksum of a byte sequence, as `crc32fast::hash`
/// computes it.
pub uninterp spec fn crc32_of(data: Seq<u8>) -> u32;

/// The CRC-32 checksum of `data`.
///
/// Calls `crc32fast::hash`, whose result depends on the bytes alone; the
/// contract names it `crc32_of`.
#[verifier::external_body]
pub(crate) fn crc32_hash(data: &[u8]) -> (r: u32)
    ensures
        r == crc32_of(data@),
{
    crc32fast::hash(data)
}

} // verus!
