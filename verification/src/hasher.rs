//! The boundary to the `highway` crate. Nothing in this file is proved: each
//! contract states what the crate's source shows of the function it names.
//!
//! A `HighwayHasher` is opaque here. What the contracts say of one is said
//! through two names, the key it was made with and the bytes it has taken in,
//! and the digests are named as functions of those two.

use highway::{HighwayHash, HighwayHasher, Key};
use vstd::prelude::*;

verus! {

/// `highway::HighwayHasher`, declared so that it can stand in signatures and
/// fields. Nothing is known of its inside.
#[verifier::external_type_specification]
#[verifier::external_body]
pub struct ExHighwayHasher(highway::HighwayHasher);

/// The four lanes of the key that a hasher was made with.
pub uninterp spec fn hasher_key(h: HighwayHasher) -> Seq<u64>;

/// Every byte that a hasher has taken in since it was made, in order.
pub uninterp spec fn hasher_input(h: HighwayHasher) -> Seq<u8>;

/// The 64-bit HighwayHash of `input` under `key`: what `finalize64` returns
/// for a hasher made with that key that has taken in those bytes.
pub uninterp spec fn digest64(key: Seq<u64>, input: Seq<u8>) -> u64;

/// The 128-bit HighwayHash of `input` under `key`, low word first: what
/// `finalize128` returns for a hasher made with that key that has taken in
/// those bytes.
pub uninterp spec fn digest128(key: Seq<u64>, input: Seq<u8>) -> (u64, u64);

/// The 256-bit HighwayHash of `input` under `key`, lowest word first: what
/// `finalize256` returns for a hasher made with that key that has taken in
/// those bytes.
pub uninterp spec fn digest256(key: Seq<u64>, input: Seq<u8>) -> (u64, u64, u64, u64);

/// `highway::Key::default()`. `Key` derives `Default` over `[u64; 4]`, so the
/// default key is four zero lanes.
#[verifier::external_body]
pub(crate) fn default_key_lanes() -> (lanes: [u64; 4])
    ensures
        lanes@ == seq![0u64, 0u64, 0u64, 0u64],
{
    Key::default().0
}

/// `HighwayHasher::new`. The new hasher has the given key and has taken in
/// nothing.
#[verifier::external_body]
pub(crate) fn hasher_new(lanes: [u64; 4]) -> (h: HighwayHasher)
    ensures
        hasher_key(h) == lanes@,
        hasher_input(h) == Seq::<u8>::empty(),
{
    HighwayHasher::new(Key(lanes))
}

/// `HighwayHash::append` on a `HighwayHasher`. The key stays; the bytes of
/// `data` follow those taken in before. The hasher gathers bytes into packets
/// of 32 and keeps an incomplete packet until more bytes or the end come, so
/// where one call ends and the next begins leaves no trace.
#[verifier::external_body]
pub(crate) fn hasher_append(h: &mut HighwayHasher, data: &[u8])
    ensures
        hasher_key(*final(h)) == hasher_key(*old(h)),
        hasher_input(*final(h)) == hasher_input(*old(h)) + data@,
{
    h.append(data)
}

/// `Clone::clone` on a `HighwayHasher`. The copy has the same key and has
/// taken in the same bytes.
#[verifier::external_body]
pub(crate) fn hasher_clone(h: &HighwayHasher) -> (c: HighwayHasher)
    ensures
        hasher_key(c) == hasher_key(*h),
        hasher_input(c) == hasher_input(*h),
{
    h.clone()
}

/// `HighwayHash::finalize64` on a `HighwayHasher`. The result is a function
/// of the key and of the bytes taken in, the same on every machine.
#[verifier::external_body]
pub(crate) fn hasher_finalize64(h: HighwayHasher) -> (word: u64)
    ensures
        word == digest64(hasher_key(h), hasher_input(h)),
{
    h.finalize64()
}

/// `HighwayHash::finalize128` on a `HighwayHasher`. The result is a function
/// of the key and of the bytes taken in, the same on every machine.
#[verifier::external_body]
pub(crate) fn hasher_finalize128(h: HighwayHasher) -> (words: [u64; 2])
    ensures
        (words@[0], words@[1]) == digest128(hasher_key(h), hasher_input(h)),
{
    h.finalize128()
}

/// `HighwayHash::finalize256` on a `HighwayHasher`. The result is a function
/// of the key and of the bytes taken in, the same on every machine.
#[verifier::external_body]
pub(crate) fn hasher_finalize256(h: HighwayHasher) -> (words: [u64; 4])
    ensures
        (words@[0], words@[1], words@[2], words@[3]) == digest256(
            hasher_key(h),
            hasher_input(h),
        ),
{
    h.finalize256()
}

} // verus!
