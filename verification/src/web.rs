//! The hasher that a host hands back for good when it asks for the digest.

use crate::error::{DigestWidth, HashError};
use crate::hasher::{hasher_append, hasher_new};
use crate::key::{create_key, derived_key};
use crate::stream::{finish, stream_of, Stream};
use highway::HighwayHasher;
use vstd::prelude::*;

verus! {

/// A hasher that is given up by finalizing it: each `finalize` takes the
/// hasher by value, so none can be fed or finalized a second time.
pub struct WasmHighway {
    inner: HighwayHasher,
}

impl View for WasmHighway {
    type V = Stream;

    closed spec fn view(&self) -> Stream {
        stream_of(self.inner)
    }
}

impl WasmHighway {
    /// Makes a hasher under the key that `key_data` stands for. A key buffer
    /// of 1 to 31 bytes is rejected.
    pub fn new(key_data: &[u8]) -> (r: Result<WasmHighway, HashError>)
        ensures
            match r {
                Ok(hasher) => derived_key(key_data@) == Ok::<Seq<u64>, HashError>(hasher@.key)
                    && hasher@ == Stream::start(hasher@.key),
                Err(e) => derived_key(key_data@) == Err::<Seq<u64>, HashError>(e),
            },
    {
        match create_key(key_data) {
            Ok(key) => Ok(WasmHighway { inner: hasher_new(key.0) }),
            Err(e) => Err(e),
        }
    }

    /// Feeds `data` to the hasher, after the bytes of earlier calls.
    pub fn append(&mut self, data: &[u8])
        ensures
            final(self)@ == old(self)@.fed(data@),
    {
        hasher_append(&mut self.inner, data)
    }

    /// Ends the hasher and returns the 8 bytes of its 64-bit digest.
    pub fn finalize64(self) -> (out: Vec<u8>)
        ensures
            out@ == self@.digest(DigestWidth::Bits64),
            out@.len() == 8,
    {
        finish(self.inner, DigestWidth::Bits64)
    }

    /// Ends the hasher and returns the 16 bytes of its 128-bit digest.
    pub fn finalize128(self) -> (out: Vec<u8>)
        ensures
            out@ == self@.digest(DigestWidth::Bits128),
            out@.len() == 16,
    {
        finish(self.inner, DigestWidth::Bits128)
    }

    /// Ends the hasher and returns the 32 bytes of its 256-bit digest.
    pub fn finalize256(self) -> (out: Vec<u8>)
        ensures
            out@ == self@.digest(DigestWidth::Bits256),
            out@.len() == 32,
    {
        finish(self.inner, DigestWidth::Bits256)
    }
}

} // verus!
