//! The account that a hash computation keeps: the key it began with and the
//! bytes fed to it since. A digest is a function of that account and of the
//! width asked for.

use crate::codec::{bytes_of, lanes_to_bytes, u64_slice_to_u8};
use crate::error::DigestWidth;
use crate::hasher::{
    digest128, digest256, digest64, hasher_finalize128, hasher_finalize256, hasher_finalize64,
    hasher_input, hasher_key,
};
use highway::HighwayHasher;
use vstd::prelude::*;

verus! {

/// What a hash computation has been given so far.
pub struct Stream {
    /// The four lanes of the key.
    pub key: Seq<u64>,
    /// The bytes fed so far, in the order of the calls that fed them.
    pub input: Seq<u8>,
}

impl Stream {
    /// A computation under `key` that has been fed nothing.
    pub open spec fn start(key: Seq<u64>) -> Stream {
        Stream { key, input: Seq::empty() }
    }

    /// The computation after one more chunk of bytes.
    pub open spec fn fed(self, data: Seq<u8>) -> Stream {
        Stream { key: self.key, input: self.input + data }
    }

    /// The computation after a sequence of chunks, fed one after the other.
    pub open spec fn fed_all(self, chunks: Seq<Seq<u8>>) -> Stream
        decreases chunks.len(),
    {
        if chunks.len() == 0 {
            self
        } else {
            self.fed_all(chunks.drop_last()).fed(chunks.last())
        }
    }

    /// The words of the digest of the given width.
    pub open spec fn digest_words(self, width: DigestWidth) -> Seq<u64> {
        match width {
            DigestWidth::Bits64 => seq![digest64(self.key, self.input)],
            DigestWidth::Bits128 => {
                let d = digest128(self.key, self.input);
                seq![d.0, d.1]
            },
            DigestWidth::Bits256 => {
                let d = digest256(self.key, self.input);
                seq![d.0, d.1, d.2, d.3]
            },
        }
    }

    /// The digest of the given width on the wire: its words in order, each
    /// least significant byte first.
    pub open spec fn digest(self, width: DigestWidth) -> Seq<u8> {
        bytes_of(self.digest_words(width))
    }
}

/// The chunks of a split, joined again.
pub open spec fn joined(chunks: Seq<Seq<u8>>) -> Seq<u8>
    decreases chunks.len(),
{
    if chunks.len() == 0 {
        Seq::empty()
    } else {
        joined(chunks.drop_last()) + chunks.last()
    }
}

/// The account of a hasher.
pub open spec fn stream_of(h: HighwayHasher) -> Stream {
    Stream { key: hasher_key(h), input: hasher_input(h) }
}

/// Width: a digest has exactly 8, 16 or 32 bytes, as its width says.
pub proof fn lemma_digest_len(s: Stream, width: DigestWidth)
    ensures
        s.digest_words(width).len() == width.words(),
        s.digest(width).len() == width.bytes(),
{
}

/// Feeding chunks one after the other is feeding them joined.
pub proof fn lemma_fed_all_is_fed_joined(s: Stream, chunks: Seq<Seq<u8>>)
    ensures
        s.fed_all(chunks) == s.fed(joined(chunks)),
    decreases chunks.len(),
{
    if chunks.len() == 0 {
        assert(s.input + Seq::<u8>::empty() =~= s.input);
    } else {
        lemma_fed_all_is_fed_joined(s, chunks.drop_last());
        assert((s.input + joined(chunks.drop_last())) + chunks.last() =~= s.input + joined(
            chunks,
        ));
    }
}

/// Chunking invariance: two ways of splitting the same bytes into chunks lead
/// to the same account, and so to the same digest of every width.
pub proof fn lemma_chunking_invariance(
    s: Stream,
    split_a: Seq<Seq<u8>>,
    split_b: Seq<Seq<u8>>,
    width: DigestWidth,
)
    requires
        joined(split_a) == joined(split_b),
    ensures
        s.fed_all(split_a) == s.fed_all(split_b),
        s.fed_all(split_a).digest(width) == s.fed_all(split_b).digest(width),
{
    lemma_fed_all_is_fed_joined(s, split_a);
    lemma_fed_all_is_fed_joined(s, split_b);
}

/// Two chunks fed in turn are the two fed as one.
pub proof fn lemma_fed_twice(s: Stream, a: Seq<u8>, b: Seq<u8>)
    ensures
        s.fed(a).fed(b) == s.fed(a + b),
{
    assert((s.input + a) + b =~= s.input + (a + b));
}

/// Ends a hasher and encodes its digest of the given width.
pub(crate) fn finish(h: HighwayHasher, width: DigestWidth) -> (out: Vec<u8>)
    ensures
        out@ == stream_of(h).digest(width),
        out@.len() == width.bytes(),
{
    match width {
        DigestWidth::Bits64 => {
            let words: [u64; 1] = [hasher_finalize64(h)];
            assert(words@ =~= stream_of(h).digest_words(width));
            lanes_to_bytes(&words)
        },
        DigestWidth::Bits128 => {
            let words: [u64; 2] = hasher_finalize128(h);
            assert(words@ =~= stream_of(h).digest_words(width));
            lanes_to_bytes(&words)
        },
        DigestWidth::Bits256 => {
            let words: [u64; 4] = hasher_finalize256(h);
            assert(words@ =~= stream_of(h).digest_words(width));
            lanes_to_bytes(&words)
        },
    }
}

/// Ends a hasher and writes its digest of the given width into a buffer of
/// the length of that digest. Nothing is allocated on the way.
pub(crate) fn finish_into(h: HighwayHasher, width: DigestWidth, out: &mut [u8])
    requires
        old(out)@.len() == width.bytes(),
    ensures
        final(out)@ == stream_of(h).digest(width),
{
    match width {
        DigestWidth::Bits64 => {
            let words: [u64; 1] = [hasher_finalize64(h)];
            assert(words@ =~= stream_of(h).digest_words(width));
            u64_slice_to_u8(out, &words);
            assert(words@.take(1) =~= words@);
        },
        DigestWidth::Bits128 => {
            let words: [u64; 2] = hasher_finalize128(h);
            assert(words@ =~= stream_of(h).digest_words(width));
            u64_slice_to_u8(out, &words);
            assert(words@.take(2) =~= words@);
        },
        DigestWidth::Bits256 => {
            let words: [u64; 4] = hasher_finalize256(h);
            assert(words@ =~= stream_of(h).digest_words(width));
            u64_slice_to_u8(out, &words);
            assert(words@.take(4) =~= words@);
        },
    }
    assert(out@ =~= stream_of(h).digest(width));
}

} // verus!
