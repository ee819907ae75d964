//! The ways in which a caller can misuse the library, and the digest widths.

use vstd::prelude::*;

verus! {

/// A rejected call. Every variant marks a mistake of the caller that is found
/// before any state is touched; none is worth retrying.
#[derive(Clone, Copy, Debug, PartialEq, Eq, Structural)]
pub enum HashError {
    /// A key buffer that is neither empty nor at least 32 bytes long.
    InvalidKeyLength,
    /// A handle that is not below the arena's capacity.
    InvalidHandle,
    /// An append or finalize on a slot that holds no session.
    SlotNotOccupied,
    /// An append or finalize on a session that already gave its digest.
    SessionAlreadyFinalized,
    /// An output buffer whose length is not the byte length of the digest.
    DigestBufferSizeMismatch,
}

/// The width of a digest: one, two or four 64-bit words.
#[derive(Clone, Copy, Debug, PartialEq, Eq, Structural)]
pub enum DigestWidth {
    Bits64,
    Bits128,
    Bits256,
}

impl DigestWidth {
    /// The number of 64-bit words in a digest of this width.
    pub open spec fn words(self) -> nat {
        match self {
            DigestWidth::Bits64 => 1,
            DigestWidth::Bits128 => 2,
            DigestWidth::Bits256 => 4,
        }
    }

    /// The number of bytes in a digest of this width.
    pub open spec fn bytes(self) -> nat {
        8 * self.words()
    }

    /// The width in bits: 64, 128 or 256.
    pub fn bits(self) -> (n: u32)
        ensures
            n == 64 * self.words(),
    {
        match self {
            DigestWidth::Bits64 => 64,
            DigestWidth::Bits128 => 128,
            DigestWidth::Bits256 => 256,
        }
    }

    /// The length in bytes of a digest of this width: 8, 16 or 32.
    pub fn byte_len(self) -> (n: usize)
        ensures
            n == self.bytes(),
    {
        match self {
            DigestWidth::Bits64 => 8,
            DigestWidth::Bits128 => 16,
            DigestWidth::Bits256 => 32,
        }
    }
}

} // verus!
