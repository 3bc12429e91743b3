//! The record that an account stores, and its conversion to and from bytes.

use vstd::prelude::*;
use crate::error::CounterError;
use crate::layout::{
    le_bytes, le_value, lemma_le_bytes_of_value, lemma_le_value_of_bytes, RECORD_LEN,
};

verus! {

/// The only record that an account holds: a count.
#[derive(Debug, Clone, Copy, PartialEq, Eq, Structural)]
pub struct CounterAccount {
    pub count: u32,
}

/// `std::io::Error`, in which borsh reports a failure. Nothing is known of a
/// value of it.
#[verifier::external_type_specification]
#[verifier::external_body]
pub struct ExIoError(std::io::Error);

/// `borsh::BorshDeserialize::try_from_slice` at `u32`. It reads four bytes as a
/// little-endian number and refuses input that is shorter, and input that it has
/// not used up.
#[verifier::external_body]
fn borsh_u32_from_slice(bytes: &[u8]) -> (r: Result<u32, std::io::Error>)
    ensures
        r is Ok <==> bytes@.len() == 4,
        r is Ok ==> r->Ok_0 == le_value(bytes@),
{
    borsh::BorshDeserialize::try_from_slice(bytes)
}

/// `borsh::BorshSerialize::serialize` at `u32`, writing into a byte slice. It hands
/// the number's four little-endian bytes to the slice's `write_all`, which copies
/// them over the front of the slice and fails where the slice is shorter. The
/// slice keeps its length; what a failed call leaves in it is not stated.
#[verifier::external_body]
fn borsh_u32_into_slice(value: u32, buf: &mut [u8]) -> (r: Result<(), std::io::Error>)
    ensures
        final(buf)@.len() == old(buf)@.len(),
        r is Ok <==> old(buf)@.len() >= 4,
        r is Ok ==> final(buf)@ == le_bytes(value) + old(buf)@.skip(4),
{
    let mut dst: &mut [u8] = buf;
    borsh::BorshSerialize::serialize(&value, &mut dst)
}

impl CounterAccount {
    /// The bytes under which the record is stored.
    pub open spec fn encoding(self) -> Seq<u8> {
        le_bytes(self.count)
    }

    /// The record that `bytes` store, if they store one: exactly four bytes do.
    pub open spec fn decoding(bytes: Seq<u8>) -> Option<CounterAccount> {
        if bytes.len() == 4 {
            Some(CounterAccount { count: le_value(bytes) })
        } else {
            None
        }
    }

    /// The record after one more invocation: the count plus one, and zero after
    /// the largest count.
    pub open spec fn successor(self) -> CounterAccount {
        CounterAccount { count: if self.count == u32::MAX { 0u32 } else { (self.count + 1) as u32 } }
    }

    /// Reads a record from bytes that hold one and nothing else.
    pub fn try_from_slice(bytes: &[u8]) -> (r: Result<CounterAccount, CounterError>)
        ensures
            match Self::decoding(bytes@) {
                Some(record) => r == Ok::<CounterAccount, CounterError>(record),
                None => r == Err::<CounterAccount, CounterError>(CounterError::DecodeError),
            },
    {
        match borsh_u32_from_slice(bytes) {
            Ok(count) => Ok(CounterAccount { count }),
            Err(_) => Err(CounterError::DecodeError),
        }
    }

    /// Writes the record over the first four bytes of `buf`. A shorter `buf` is
    /// refused and left as it was; a longer one keeps what follows those bytes.
    pub fn serialize(&self, buf: &mut [u8]) -> (r: Result<(), CounterError>)
        ensures
            old(buf)@.len() >= 4 ==> r is Ok && final(buf)@ == self.encoding() + old(buf)@.skip(4),
            old(buf)@.len() < 4 ==> r == Err::<(), CounterError>(CounterError::BufferTooSmall)
                && final(buf)@ == old(buf)@,
    {
        if buf.len() < RECORD_LEN {
            return Err(CounterError::BufferTooSmall);
        }
        match borsh_u32_into_slice(self.count, buf) {
            Ok(()) => Ok(()),
            Err(_) => Err(CounterError::BufferTooSmall),
        }
    }

    /// Adds one to the count; the largest count is followed by zero.
    pub fn increment(&mut self)
        ensures
            *final(self) == old(self).successor(),
    {
        self.count = self.count.wrapping_add(1);
    }
}

/// Reading back what was written gives the record that was written: the encoding
/// of a record has four bytes, and they decode to that record.
pub proof fn lemma_decode_encode(record: CounterAccount)
    ensures
        record.encoding().len() == 4,
        CounterAccount::decoding(record.encoding()) == Some(record),
{
    lemma_le_value_of_bytes(record.count);
}

/// Writing back what was read gives the bytes that were read: bytes that decode
/// to a record are the encoding of that record.
pub proof fn lemma_encode_decode(bytes: Seq<u8>)
    requires
        CounterAccount::decoding(bytes) is Some,
    ensures
        CounterAccount::decoding(bytes)->Some_0.encoding() == bytes,
{
    lemma_le_bytes_of_value(bytes);
}

/// Below the largest count, the successor's count is larger by exactly one.
pub proof fn lemma_successor_adds_one(record: CounterAccount)
    requires
        record.count < u32::MAX,
    ensures
        record.successor().count == record.count + 1,
{
}

} // verus!
