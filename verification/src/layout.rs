//! The storage format of the count: four bytes, least significant byte first.

use vstd::prelude::*;

verus! {

/// Number of bytes that a stored count occupies.
pub const RECORD_LEN: usize = 4;

/// The four bytes that stand for `n`, least significant first.
pub open spec fn le_bytes(n: u32) -> Seq<u8> {
    seq![
        (n % 256) as u8,
        ((n / 256) % 256) as u8,
        ((n / 65536) % 256) as u8,
        (n / 16777216) as u8,
    ]
}

/// The number that the first four bytes of `bytes` stand for.
pub open spec fn le_value(bytes: Seq<u8>) -> u32
    recommends
        bytes.len() >= 4,
{
    (bytes[0] + 256 * bytes[1] + 65536 * bytes[2] + 16777216 * bytes[3]) as u32
}

/// The bytes of a number stand for that number, and there are four of them.
pub proof fn lemma_le_value_of_bytes(n: u32)
    ensures
        le_bytes(n).len() == 4,
        le_value(le_bytes(n)) == n,
{
}

/// Four bytes are the bytes of the number that they stand for.
pub proof fn lemma_le_bytes_of_value(bytes: Seq<u8>)
    requires
        bytes.len() == 4,
    ensures
        le_bytes(le_value(bytes)) == bytes,
{
    assert(le_bytes(le_value(bytes)) =~= bytes);
}

} // verus!
