//! The lane codec: 64-bit words to and from bytes, least significant byte
//! first.

use crate::error::HashError;
use vstd::prelude::*;

verus! {

/// The word that eight bytes stand for, the first byte being the least
/// significant.
pub open spec fn word_of(b: Seq<u8>) -> u64
    recommends
        b.len() == 8,
{
    (b[0] + 0x100 * b[1] + 0x1_0000 * b[2] + 0x100_0000 * b[3] + 0x1_0000_0000 * b[4]
        + 0x100_0000_0000 * b[5] + 0x1_0000_0000_0000 * b[6] + 0x100_0000_0000_0000 * b[7]) as u64
}

/// The eight bytes of a word, least significant first.
pub open spec fn bytes_of_word(w: u64) -> Seq<u8> {
    seq![
        (w % 0x100) as u8,
        (w / 0x100 % 0x100) as u8,
        (w / 0x1_0000 % 0x100) as u8,
        (w / 0x100_0000 % 0x100) as u8,
        (w / 0x1_0000_0000 % 0x100) as u8,
        (w / 0x100_0000_0000 % 0x100) as u8,
        (w / 0x1_0000_0000_0000 % 0x100) as u8,
        (w / 0x100_0000_0000_0000 % 0x100) as u8,
    ]
}

/// Decoding the bytes of a word gives the word back.
pub proof fn lemma_word_round_trip(w: u64)
    ensures
        bytes_of_word(w).len() == 8,
        word_of(bytes_of_word(w)) == w,
{
    assert(w == (w % 0x100) + 0x100 * (w / 0x100 % 0x100) + 0x1_0000 * (w / 0x1_0000 % 0x100)
        + 0x100_0000 * (w / 0x100_0000 % 0x100) + 0x1_0000_0000 * (w / 0x1_0000_0000 % 0x100)
        + 0x100_0000_0000 * (w / 0x100_0000_0000 % 0x100) + 0x1_0000_0000_0000 * (w
        / 0x1_0000_0000_0000 % 0x100) + 0x100_0000_0000_0000 * (w / 0x100_0000_0000_0000 % 0x100))
        by (bit_vector);
}

/// Encoding the word of eight bytes gives the bytes back.
pub proof fn lemma_bytes_round_trip(b: Seq<u8>)
    requires
        b.len() == 8,
    ensures
        bytes_of_word(word_of(b)) == b,
{
    let b0: u8 = b[0];
    let b1: u8 = b[1];
    let b2: u8 = b[2];
    let b3: u8 = b[3];
    let b4: u8 = b[4];
    let b5: u8 = b[5];
    let b6: u8 = b[6];
    let b7: u8 = b[7];
    let w: u64 = word_of(b);
    assert(w == b0 + 0x100 * b1 + 0x1_0000 * b2 + 0x100_0000 * b3 + 0x1_0000_0000 * b4
        + 0x100_0000_0000 * b5 + 0x1_0000_0000_0000 * b6 + 0x100_0000_0000_0000 * b7);
    assert(w == b0 + 0x100 * b1 + 0x1_0000 * b2 + 0x100_0000 * b3 + 0x1_0000_0000 * b4
        + 0x100_0000_0000 * b5 + 0x1_0000_0000_0000 * b6 + 0x100_0000_0000_0000 * b7 ==> {
        &&& w % 0x100 == b0
        &&& w / 0x100 % 0x100 == b1
        &&& w / 0x1_0000 % 0x100 == b2
        &&& w / 0x100_0000 % 0x100 == b3
        &&& w / 0x1_0000_0000 % 0x100 == b4
        &&& w / 0x100_0000_0000 % 0x100 == b5
        &&& w / 0x1_0000_0000_0000 % 0x100 == b6
        &&& w / 0x100_0000_0000_0000 % 0x100 == b7
    }) by (bit_vector);
    assert(bytes_of_word(w) =~= b);
}

/// Lane `i` of a key buffer: the word at bytes `8 * i .. 8 * i + 8`, or zero
/// where the buffer ends before that group is complete.
pub open spec fn lane_at(d: Seq<u8>, i: int) -> u64 {
    if 8 * i + 8 <= d.len() {
        word_of(d.subrange(8 * i, 8 * i + 8))
    } else {
        0
    }
}

/// The four lanes of a key buffer. Bytes from offset 32 on play no part.
pub open spec fn lanes_of(d: Seq<u8>) -> Seq<u64> {
    Seq::new(4, |i: int| lane_at(d, i))
}

/// The bytes of a sequence of words: eight per word, in the order of the
/// words.
pub open spec fn bytes_of(words: Seq<u64>) -> Seq<u8> {
    Seq::new(8 * words.len(), |j: int| bytes_of_word(words[j / 8])[j % 8])
}

/// The number of words that `u64_slice_to_u8` writes: as many as there are,
/// or as many as fit whole into the output.
pub open spec fn words_written(out_len: nat, n_words: nat) -> int {
    if n_words <= out_len / 8 {
        n_words as int
    } else {
        out_len as int / 8
    }
}

/// An output buffer after the words were written over its front.
pub open spec fn overlaid(out: Seq<u8>, words: Seq<u64>) -> Seq<u8> {
    let n = words_written(out.len(), words.len());
    bytes_of(words.take(n)) + out.skip(8 * n)
}

/// Reads the word that starts at byte `at`.
fn read_word(d: &[u8], at: usize) -> (w: u64)
    requires
        at + 8 <= d@.len(),
    ensures
        w == word_of(d@.subrange(at as int, at + 8)),
{
    let b0: u64 = d[at] as u64;
    let b1: u64 = d[at + 1] as u64;
    let b2: u64 = d[at + 2] as u64;
    let b3: u64 = d[at + 3] as u64;
    let b4: u64 = d[at + 4] as u64;
    let b5: u64 = d[at + 5] as u64;
    let b6: u64 = d[at + 6] as u64;
    let b7: u64 = d[at + 7] as u64;
    assert(b0 < 0x100 && b1 < 0x100 && b2 < 0x100 && b3 < 0x100 && b4 < 0x100 && b5 < 0x100 && b6
        < 0x100 && b7 < 0x100 ==> (b0 | b1 << 8 | b2 << 16 | b3 << 24 | b4 << 32 | b5 << 40 | b6
        << 48 | b7 << 56) == b0 + 0x100 * b1 + 0x1_0000 * b2 + 0x100_0000 * b3 + 0x1_0000_0000 * b4
        + 0x100_0000_0000 * b5 + 0x1_0000_0000_0000 * b6 + 0x100_0000_0000_0000 * b7)
        by (bit_vector);
    b0 | b1 << 8 | b2 << 16 | b3 << 24 | b4 << 32 | b5 << 40 | b6 << 48 | b7 << 56
}

/// Decodes the four lanes of a key from a buffer, least significant byte
/// first. A lane whose eight bytes the buffer does not hold in full is zero;
/// bytes from offset 32 on are ignored.
pub fn data_to_lanes(d: &[u8]) -> (lanes: [u64; 4])
    ensures
        lanes@ == lanes_of(d@),
{
    let mut result: [u64; 4] = [0u64; 4];
    let mut i: usize = 0;
    while i < 4 && 8 * i + 8 <= d.len()
        invariant
            i <= 4,
            forall|k: int| 0 <= k < i ==> result@[k] == lane_at(d@, k),
            forall|k: int| i <= k < 4 ==> result@[k] == 0,
            8 * i <= d@.len(),
        decreases 4 - i,
    {
        let w: u64 = read_word(d, 8 * i);
        result[i] = w;
        i += 1;
    }
    assert(result@ =~= lanes_of(d@));
    result
}

/// The eight bytes of a word, least significant first.
fn word_bytes(w: u64) -> (b: [u8; 8])
    ensures
        b@ == bytes_of_word(w),
{
    assert((w & 0xff) == w % 0x100 && ((w >> 8) & 0xff) == w / 0x100 % 0x100 && ((w >> 16) & 0xff)
        == w / 0x1_0000 % 0x100 && ((w >> 24) & 0xff) == w / 0x100_0000 % 0x100 && ((w >> 32)
        & 0xff) == w / 0x1_0000_0000 % 0x100 && ((w >> 40) & 0xff) == w / 0x100_0000_0000 % 0x100
        && ((w >> 48) & 0xff) == w / 0x1_0000_0000_0000 % 0x100 && ((w >> 56) & 0xff) == w
        / 0x100_0000_0000_0000 % 0x100) by (bit_vector);
    let b: [u8; 8] = [
        (w & 0xff) as u8,
        ((w >> 8) & 0xff) as u8,
        ((w >> 16) & 0xff) as u8,
        ((w >> 24) & 0xff) as u8,
        ((w >> 32) & 0xff) as u8,
        ((w >> 40) & 0xff) as u8,
        ((w >> 48) & 0xff) as u8,
        ((w >> 56) & 0xff) as u8,
    ];
    assert(b@ =~= bytes_of_word(w));
    b
}

/// Writes hash words into an output buffer, eight bytes per word, least
/// significant byte first. Word `i` goes to bytes `8 * i .. 8 * i + 8`. Where
/// the buffer has no room for all the words, the words that fit whole are
/// written; where it is longer than the words need, its tail is left as it was.
pub fn u64_slice_to_u8(out: &mut [u8], hash: &[u64])
    ensures
        final(out)@ == overlaid(old(out)@, hash@),
{
    let len: usize = out.len();
    let room: usize = len / 8;
    let n: usize = if hash.len() <= room {
        hash.len()
    } else {
        room
    };
    let mut i: usize = 0;
    while i < n
        invariant
            i <= n,
            n == words_written(old(out)@.len(), hash@.len()),
            8 * n <= len,
            out@.len() == len == old(out)@.len(),
            forall|j: int| 0 <= j < 8 * i ==> out@[j] == bytes_of_word(hash@[j / 8])[j % 8],
            forall|j: int| 8 * i <= j < out@.len() ==> out@[j] == old(out)@[j],
        decreases n - i,
    {
        let b: [u8; 8] = word_bytes(hash[i]);
        let at: usize = 8 * i;
        let mut k: usize = 0;
        while k < 8
            invariant
                k <= 8,
                i < n,
                at == 8 * i,
                n == words_written(old(out)@.len(), hash@.len()),
                8 * n <= len,
                out@.len() == len == old(out)@.len(),
                b@ == bytes_of_word(hash@[i as int]),
                forall|j: int| 0 <= j < at ==> out@[j] == bytes_of_word(hash@[j / 8])[j % 8],
                forall|j: int| at <= j < at + k ==> out@[j] == b@[j - at],
                forall|j: int| at + k <= j < out@.len() ==> out@[j] == old(out)@[j],
            decreases 8 - k,
        {
            out[at + k] = b[k];
            k += 1;
        }
        i += 1;
    }
    assert(out@ =~= overlaid(old(out)@, hash@));
}

/// Encodes words as bytes: eight bytes per word, least significant byte
/// first, the words in their order.
pub fn lanes_to_bytes(words: &[u64]) -> (bytes: Vec<u8>)
    ensures
        bytes@ == bytes_of(words@),
{
    let mut bytes: Vec<u8> = Vec::new();
    let mut i: usize = 0;
    while i < words.len()
        invariant
            i <= words@.len(),
            bytes@ == bytes_of(words@.take(i as int)),
        decreases words@.len() - i,
    {
        let b: [u8; 8] = word_bytes(words[i]);
        let mut k: usize = 0;
        while k < 8
            invariant
                k <= 8,
                i < words@.len(),
                b@ == bytes_of_word(words@[i as int]),
                bytes@ == bytes_of(words@.take(i as int)) + b@.take(k as int),
            decreases 8 - k,
        {
            bytes.push(b[k]);
            assert(b@.take(k + 1) =~= b@.take(k as int).push(b@[k as int]));
            k += 1;
        }
        assert(bytes@ =~= bytes_of(words@.take(i + 1)));
        i += 1;
    }
    assert(words@.take(i as int) =~= words@);
    bytes
}

/// Decodes the four lanes of a key from a buffer of at least 32 bytes, and
/// rejects a shorter one. Bytes from offset 32 on are ignored.
pub fn bytes_to_lanes(buffer: &[u8]) -> (r: Result<[u64; 4], HashError>)
    ensures
        match r {
            Ok(lanes) => buffer@.len() >= 32 && lanes@ == lanes_of(buffer@),
            Err(e) => buffer@.len() < 32 && e == HashError::InvalidKeyLength,
        },
{
    if buffer.len() < 32 {
        Err(HashError::InvalidKeyLength)
    } else {
        Ok(data_to_lanes(buffer))
    }
}

/// The bytes of `n` words are `8 * n` bytes, and word `i` is found again at
/// bytes `8 * i .. 8 * i + 8`.
pub proof fn lemma_bytes_of_layout(words: Seq<u64>, i: int)
    requires
        0 <= i < words.len(),
    ensures
        bytes_of(words).len() == 8 * words.len(),
        bytes_of(words).subrange(8 * i, 8 * i + 8) == bytes_of_word(words[i]),
{
    assert(bytes_of(words).subrange(8 * i, 8 * i + 8) =~= bytes_of_word(words[i]));
}

/// Round trip, lanes first: four lanes that are encoded and then decoded are
/// the same four lanes.
pub proof fn lemma_lanes_round_trip(lanes: Seq<u64>)
    requires
        lanes.len() == 4,
    ensures
        lanes_of(bytes_of(lanes)) == lanes,
{
    assert forall|i: int| 0 <= i < 4 implies lane_at(bytes_of(lanes), i) == lanes[i] by {
        lemma_bytes_of_layout(lanes, i);
        lemma_word_round_trip(lanes[i]);
    }
    assert(lanes_of(bytes_of(lanes)) =~= lanes);
}

/// Round trip, bytes first: the lanes decoded from a buffer of at least 32
/// bytes encode to the first 32 bytes of that buffer.
pub proof fn lemma_key_bytes_round_trip(d: Seq<u8>)
    requires
        d.len() >= 32,
    ensures
        bytes_of(lanes_of(d)) == d.take(32),
{
    let back = bytes_of(lanes_of(d));
    assert forall|j: int| 0 <= j < 32 implies back[j] == d[j] by {
        let i: int = j / 8;
        let group = d.subrange(8 * i, 8 * i + 8);
        lemma_bytes_round_trip(group);
        assert(lanes_of(d)[i] == word_of(group));
        assert(group[j % 8] == d[j]);
    }
    assert(back =~= d.take(32));
}

} // verus!
