//! Keys, and how a key comes out of a key buffer.

use crate::codec::{bytes_to_lanes, lanes_of};
use crate::error::HashError;
use crate::hasher::default_key_lanes;
use vstd::prelude::*;

verus! {

/// A hash key: four 64-bit lanes, in order.
#[derive(Clone, Copy, Debug)]
pub struct Key(pub [u64; 4]);

impl View for Key {
    type V = Seq<u64>;

    open spec fn view(&self) -> Seq<u64> {
        self.0@
    }
}

/// The lanes of the key that stands in where no key is supplied.
pub open spec fn default_lanes() -> Seq<u64> {
    seq![0u64, 0u64, 0u64, 0u64]
}

/// The key that a key buffer stands for: the default key for an empty buffer,
/// the lanes decoded from the first 32 bytes for one of 32 bytes or more, and
/// none for a buffer in between.
pub open spec fn derived_key(buffer: Seq<u8>) -> Result<Seq<u64>, HashError> {
    if buffer.len() == 0 {
        Ok(default_lanes())
    } else if buffer.len() < 32 {
        Err(HashError::InvalidKeyLength)
    } else {
        Ok(lanes_of(buffer))
    }
}

/// Derives the key from a key buffer. An empty buffer gives the default key;
/// a buffer of 32 bytes or more gives the four lanes in its first 32 bytes; a
/// buffer of 1 to 31 bytes is rejected.
pub fn create_key(data: &[u8]) -> (r: Result<Key, HashError>)
    ensures
        match r {
            Ok(key) => derived_key(data@) == Ok::<Seq<u64>, HashError>(key@),
            Err(e) => derived_key(data@) == Err::<Seq<u64>, HashError>(e),
        },
{
    if data.len() == 0 {
        Ok(Key(default_key_lanes()))
    } else {
        match bytes_to_lanes(data) {
            Ok(lanes) => Ok(Key(lanes)),
            Err(e) => Err(e),
        }
    }
}

} // verus!
