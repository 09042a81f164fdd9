//! Reading the embedded millisecond timestamp out of a 16-byte UUID value.

use vstd::prelude::*;

verus! {

/// The big-endian unsigned integer held in the first six bytes of a UUID
/// value: for version-7 UUIDs, the number of milliseconds since the Unix
/// epoch at which the UUID was created.
pub open spec fn ts_of_bytes(b: Seq<u8>) -> int
    recommends
        b.len() >= 6,
{
    b[0] * 0x10000000000 + b[1] * 0x100000000 + b[2] * 0x1000000 + b[3] * 0x10000 + b[4] * 0x100
        + b[5]
}

/// Reads bytes 0 through 5 of a 16-byte UUID value as a big-endian unsigned
/// 48-bit integer. The remaining ten bytes are ignored, so the version and
/// variant fields never affect the result.
pub fn extract_timestamp_ms(bytes: &[u8; 16]) -> (r: i64)
    ensures
        r == ts_of_bytes(bytes@),
        0 <= r < 0x1000000000000,
{
    let t: u64 = (bytes[0] as u64) * 0x10000000000 + (bytes[1] as u64) * 0x100000000 + (bytes[2]
        as u64) * 0x1000000 + (bytes[3] as u64) * 0x10000 + (bytes[4] as u64) * 0x100 + (bytes[5]
        as u64);
    t as i64
}

/// The extracted timestamp depends only on the first six bytes: two UUID
/// values that agree there yield the same integer, whatever their remaining
/// bytes hold.
pub proof fn lemma_timestamp_ignores_tail(a: Seq<u8>, b: Seq<u8>)
    requires
        a.len() >= 6,
        b.len() >= 6,
        forall|i: int| 0 <= i < 6 ==> a[i] == b[i],
    ensures
        ts_of_bytes(a) == ts_of_bytes(b),
{
}

} // verus!
