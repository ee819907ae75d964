//! The hasher that a host with objects of its own holds: finalizing reads the
//! digest off a copy, so the hasher stays usable.

use crate::error::{DigestWidth, HashError};
use crate::hasher::{hasher_append, hasher_clone, hasher_new};
use crate::key::{create_key, derived_key};
use crate::session::hashed;
use crate::stream::{finish, stream_of, Stream};
use highway::HighwayHasher;
use vstd::prelude::*;

verus! {

/// A hasher whose digest can be read at any time and any number of times.
///
/// Each `finalize` hashes a copy of what has been taken in so far. The hasher
/// itself is not finalized by it: it can be read again at another width, and
/// fed further.
pub struct NativeHasher {
    internal: HighwayHasher,
}

impl View for NativeHasher {
    type V = Stream;

    closed spec fn view(&self) -> Stream {
        stream_of(self.internal)
    }
}

impl NativeHasher {
    /// Makes a hasher under the key that `key_data` stands for. A key buffer
    /// of 1 to 31 bytes is rejected.
    pub fn new(key_data: &[u8]) -> (r: Result<NativeHasher, HashError>)
        ensures
            match r {
                Ok(hasher) => derived_key(key_data@) == Ok::<Seq<u64>, HashError>(hasher@.key)
                    && hasher@ == Stream::start(hasher@.key),
                Err(e) => derived_key(key_data@) == Err::<Seq<u64>, HashError>(e),
            },
    {
        match create_key(key_data) {
            Ok(key) => Ok(NativeHasher { internal: hasher_new(key.0) }),
            Err(e) => Err(e),
        }
    }

    /// Feeds `data` to the hasher, after the bytes of earlier calls.
    pub fn append(&mut self, data: &[u8])
        ensures
            final(self)@ == old(self)@.fed(data@),
    {
        hasher_append(&mut self.internal, data)
    }

    /// The 8 bytes of the 64-bit digest of what was fed so far.
    pub fn finalize64(&self) -> (out: Vec<u8>)
        ensures
            out@ == self@.digest(DigestWidth::Bits64),
            out@.len() == 8,
    {
        finish(hasher_clone(&self.internal), DigestWidth::Bits64)
    }

    /// The 16 bytes of the 128-bit digest of what was fed so far.
    pub fn finalize128(&self) -> (out: Vec<u8>)
        ensures
            out@ == self@.digest(DigestWidth::Bits128),
            out@.len() == 16,
    {
        finish(hasher_clone(&self.internal), DigestWidth::Bits128)
    }

    /// The 32 bytes of the 256-bit digest of what was fed so far.
    pub fn finalize256(&self) -> (out: Vec<u8>)
        ensures
            out@ == self@.digest(DigestWidth::Bits256),
            out@.len() == 32,
    {
        finish(hasher_clone(&self.internal), DigestWidth::Bits256)
    }
}

/// The 64-bit digest of `data` under the key that `key_data` stands for.
pub fn hash64(key_data: &[u8], data: &[u8]) -> (r: Result<Vec<u8>, HashError>)
    ensures
        match r {
            Ok(out) => hashed(key_data@, data@, DigestWidth::Bits64) == Ok::<Seq<u8>, HashError>(
                out@,
            ) && out@.len() == 8,
            Err(e) => hashed(key_data@, data@, DigestWidth::Bits64) == Err::<Seq<u8>, HashError>(
                e,
            ),
        },
{
    match NativeHasher::new(key_data) {
        Ok(mut hasher) => {
            hasher.append(data);
            Ok(hasher.finalize64())
        },
        Err(e) => Err(e),
    }
}

/// The 128-bit digest of `data` under the key that `key_data` stands for.
pub fn hash128(key_data: &[u8], data: &[u8]) -> (r: Result<Vec<u8>, HashError>)
    ensures
        match r {
            Ok(out) => hashed(key_data@, data@, DigestWidth::Bits128) == Ok::<Seq<u8>, HashError>(
                out@,
            ) && out@.len() == 16,
            Err(e) => hashed(key_data@, data@, DigestWidth::Bits128) == Err::<Seq<u8>, HashError>(
                e,
            ),
        },
{
    match NativeHasher::new(key_data) {
        Ok(mut hasher) => {
            hasher.append(data);
            Ok(hasher.finalize128())
        },
        Err(e) => Err(e),
    }
}

/// The 256-bit digest of `data` under the key that `key_data` stands for.
pub fn hash256(key_data: &[u8], data: &[u8]) -> (r: Result<Vec<u8>, HashError>)
    ensures
        match r {
            Ok(out) => hashed(key_data@, data@, DigestWidth::Bits256) == Ok::<Seq<u8>, HashError>(
                out@,
            ) && out@.len() == 32,
            Err(e) => hashed(key_data@, data@, DigestWidth::Bits256) == Err::<Seq<u8>, HashError>(
                e,
            ),
        },
{
    match NativeHasher::new(key_data) {
        Ok(mut hasher) => {
            hasher.append(data);
            Ok(hasher.finalize256())
        },
        Err(e) => Err(e),
    }
}

} // verus!
