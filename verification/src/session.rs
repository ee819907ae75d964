//! A streaming hash session: created with a key, fed any number of times,
//! finalized once.

use crate::error::{DigestWidth, HashError};
use crate::hasher::{hasher_append, hasher_new};
use crate::key::{create_key, default_lanes, derived_key, Key};
use crate::stream::{finish, finish_into, stream_of, Stream};
use highway::HighwayHasher;
use vstd::prelude::*;

verus! {

/// The state of a session as its callers see it.
pub enum SessionState {
    /// The session takes bytes, and may be finalized. It holds the account of
    /// what it was given.
    Active(Stream),
    /// The session has given its digest. It takes nothing more.
    Finalized,
}

/// One hash computation, from its key to its digest.
///
/// Finalizing uses the session up: a second finalize, of the same width or
/// another, and an append after the finalize are rejected with
/// `SessionAlreadyFinalized`.
pub struct Session {
    hasher: Option<HighwayHasher>,
}

impl View for Session {
    type V = SessionState;

    closed spec fn view(&self) -> SessionState {
        match self.hasher {
            Some(h) => SessionState::Active(stream_of(h)),
            None => SessionState::Finalized,
        }
    }
}

/// What `hash` returns: the digest of `data` under the key that the key
/// buffer stands for, or the reason why the buffer stands for none.
pub open spec fn hashed(key_buffer: Seq<u8>, data: Seq<u8>, width: DigestWidth) -> Result<
    Seq<u8>,
    HashError,
> {
    match derived_key(key_buffer) {
        Ok(key) => Ok(Stream::start(key).fed(data).digest(width)),
        Err(e) => Err(e),
    }
}

impl Session {
    /// Starts a session under `key`. This always succeeds.
    pub fn new(key: Key) -> (s: Session)
        ensures
            s@ == SessionState::Active(Stream::start(key@)),
    {
        Session { hasher: Some(hasher_new(key.0)) }
    }

    /// Whether the session has given its digest.
    pub fn is_finalized(&self) -> (b: bool)
        ensures
            b == (self@ == SessionState::Finalized),
    {
        self.hasher.is_none()
    }

    /// Feeds `data`, which may be empty, to an active session. The bytes
    /// follow those of earlier calls. A finalized session rejects the call
    /// and stays as it is.
    pub fn append(&mut self, data: &[u8]) -> (r: Result<(), HashError>)
        ensures
            match old(self)@ {
                SessionState::Active(stream) => r == Ok::<(), HashError>(()) && final(self)@
                    == SessionState::Active(stream.fed(data@)),
                SessionState::Finalized => r == Err::<(), HashError>(
                    HashError::SessionAlreadyFinalized,
                ) && final(self)@ == SessionState::Finalized,
            },
    {
        match &mut self.hasher {
            Some(h) => {
                hasher_append(h, data);
                Ok(())
            },
            None => Err(HashError::SessionAlreadyFinalized),
        }
    }

    /// Ends an active session and returns its digest of the given width: 8,
    /// 16 or 32 bytes. The digest depends on the key and on the bytes fed, not
    /// on how they were split over the calls. A finalized session rejects the
    /// call. Either way the session is finalized afterwards.
    pub fn finalize(&mut self, width: DigestWidth) -> (r: Result<Vec<u8>, HashError>)
        ensures
            final(self)@ == SessionState::Finalized,
            match old(self)@ {
                SessionState::Active(stream) => r matches Ok(digest) && digest@ == stream.digest(
                    width,
                ) && digest@.len() == width.bytes(),
                SessionState::Finalized => r matches Err(e) && e
                    == HashError::SessionAlreadyFinalized,
            },
    {
        match self.hasher.take() {
            Some(h) => Ok(finish(h, width)),
            None => Err(HashError::SessionAlreadyFinalized),
        }
    }

    /// Ends an active session and writes its digest of the given width into
    /// `out`, whose length must be that of the digest: 8, 16 or 32 bytes.
    /// Nothing is allocated on the way. A finalized session rejects the call
    /// with `SessionAlreadyFinalized`; an active one rejects a buffer of
    /// another length with `DigestBufferSizeMismatch` and stays active. A
    /// rejected call writes nothing.
    pub fn finalize_into(&mut self, width: DigestWidth, out: &mut [u8]) -> (r: Result<
        (),
        HashError,
    >)
        ensures
            match old(self)@ {
                SessionState::Active(stream) => if old(out)@.len() == width.bytes() {
                    &&& r == Ok::<(), HashError>(())
                    &&& final(self)@ == SessionState::Finalized
                    &&& final(out)@ == stream.digest(width)
                } else {
                    &&& r == Err::<(), HashError>(HashError::DigestBufferSizeMismatch)
                    &&& final(self)@ == old(self)@
                    &&& final(out)@ == old(out)@
                },
                SessionState::Finalized => {
                    &&& r == Err::<(), HashError>(HashError::SessionAlreadyFinalized)
                    &&& final(self)@ == SessionState::Finalized
                    &&& final(out)@ == old(out)@
                },
            },
    {
        if self.hasher.is_none() {
            return Err(HashError::SessionAlreadyFinalized);
        }
        if out.len() != width.byte_len() {
            return Err(HashError::DigestBufferSizeMismatch);
        }
        match self.hasher.take() {
            Some(h) => {
                finish_into(h, width, out);
                Ok(())
            },
            None => Err(HashError::SessionAlreadyFinalized),
        }
    }
}

/// Hashes `data` in one call: derives the key from `key_buffer`, starts a
/// session, feeds `data` once and finalizes at `width`. The result is a
/// function of the two buffers and the width.
pub fn hash(key_buffer: &[u8], data: &[u8], width: DigestWidth) -> (r: Result<Vec<u8>, HashError>)
    ensures
        match r {
            Ok(digest) => hashed(key_buffer@, data@, width) == Ok::<Seq<u8>, HashError>(digest@)
                && digest@.len() == width.bytes(),
            Err(e) => hashed(key_buffer@, data@, width) == Err::<Seq<u8>, HashError>(e),
        },
{
    match create_key(key_buffer) {
        Ok(key) => {
            let mut session: Session = Session::new(key);
            match session.append(data) {
                Ok(()) => session.finalize(width),
                Err(e) => Err(e),
            }
        },
        Err(e) => Err(e),
    }
}

/// Default key: an empty key buffer stands for the default key, so every
/// call of `hash` without a key hashes under the same four lanes, and gives
/// the same digest for the same data.
pub proof fn lemma_hashed_without_key(data: Seq<u8>, width: DigestWidth)
    ensures
        derived_key(Seq::<u8>::empty()) == Ok::<Seq<u64>, HashError>(default_lanes()),
        hashed(Seq::<u8>::empty(), data, width) == Ok::<Seq<u8>, HashError>(
            Stream::start(default_lanes()).fed(data).digest(width),
        ),
{
}

/// Width and empty input: whatever the data, and for empty data too, a
/// digest that `hash` returns has the 8, 16 or 32 bytes of its width.
pub proof fn lemma_hashed_len(key_buffer: Seq<u8>, data: Seq<u8>, width: DigestWidth)
    requires
        hashed(key_buffer, data, width) is Ok,
    ensures
        hashed(key_buffer, data, width)->Ok_0.len() == width.bytes(),
{
}

} // verus!
