use highwayhasher::arena::{
    append, finalize128, finalize256, finalize64, max_instances, new_hasher, Arena, PAGE_SIZE,
};
use highwayhasher::codec::lanes_to_bytes;
use highwayhasher::error::{DigestWidth, HashError};
use highwayhasher::native::{hash128, hash256, hash64};
use highwayhasher::session::hash;

fn key_a() -> Vec<u8> {
    lanes_to_bytes(&[1, 2, 3, 4])
}

fn key_b() -> Vec<u8> {
    lanes_to_bytes(&[5, 6, 7, 8])
}

#[test]
fn max_instances_is_the_number_of_hashers_in_a_page() {
    assert_eq!(PAGE_SIZE, 65536);
    let size = std::mem::size_of::<highway::HighwayHasher>();
    assert!(size > 0);
    assert_eq!(max_instances(), 65536 / size);
    assert!(max_instances() >= 1);
}

#[test]
fn arena_capacity_is_max_instances() {
    let arena = Arena::new();
    assert_eq!(arena.capacity(), max_instances());
}

#[test]
fn new_arena_has_only_empty_slots() {
    let mut arena = Arena::new();
    for handle in 0..arena.capacity() {
        assert_eq!(
            arena.append_to_slot(handle, b"x"),
            Err(HashError::SlotNotOccupied)
        );
    }
}

#[test]
fn create_in_slot_at_the_capacity_boundary() {
    let mut arena = Arena::new();
    let c = arena.capacity();
    assert_eq!(
        arena.create_in_slot(c, &key_a()),
        Err(HashError::InvalidHandle)
    );
    assert_eq!(
        arena.create_in_slot(usize::MAX, &key_a()),
        Err(HashError::InvalidHandle)
    );
    assert_eq!(
        arena.create_in_slot(c + 1, &[]),
        Err(HashError::InvalidHandle)
    );
    assert_eq!(arena.create_in_slot(c - 1, &key_a()), Ok(c - 1));
    assert_eq!(arena.create_in_slot(0, &key_a()), Ok(0));
}

#[test]
fn new_hasher_at_the_capacity_boundary() {
    let mut arena = Arena::new();
    let c = arena.capacity();
    assert_eq!(new_hasher(&mut arena, &key_a(), c), -1);
    assert_eq!(new_hasher(&mut arena, &key_a(), usize::MAX), -1);
    assert_eq!(new_hasher(&mut arena, &key_a(), c - 1), (c - 1) as i32);
    assert_eq!(new_hasher(&mut arena, &[], 0), 0);
    assert_eq!(arena.append_to_slot(c - 1, b"x"), Ok(()));
    assert_eq!(arena.append_to_slot(0, b"x"), Ok(()));
}

#[test]
fn reuse_of_a_slot_with_another_key_gives_another_digest() {
    let mut arena = Arena::new();
    assert_eq!(arena.create_in_slot(0, &key_a()), Ok(0));
    assert_eq!(arena.append_to_slot(0, b"x"), Ok(()));
    let mut d1 = [0u8; 8];
    assert_eq!(arena.finalize_slot(0, DigestWidth::Bits64, &mut d1), Ok(()));

    assert_eq!(arena.create_in_slot(0, &key_b()), Ok(0));
    assert_eq!(arena.append_to_slot(0, b"x"), Ok(()));
    let mut d2 = [0u8; 8];
    assert_eq!(arena.finalize_slot(0, DigestWidth::Bits64, &mut d2), Ok(()));

    assert_ne!(d1, d2);
    assert_eq!(Ok(d1.to_vec()), hash64(&key_a(), b"x"));
    assert_eq!(Ok(d2.to_vec()), hash64(&key_b(), b"x"));
}

#[test]
fn reuse_scenario_through_the_sentinel_functions() {
    let mut arena = Arena::new();
    assert_eq!(new_hasher(&mut arena, &key_a(), 0), 0);
    append(&mut arena, b"x", 0);
    let mut d1 = [0u8; 8];
    finalize64(&mut arena, &mut d1, 0);

    assert_eq!(new_hasher(&mut arena, &key_b(), 0), 0);
    append(&mut arena, b"x", 0);
    let mut d2 = [0u8; 8];
    finalize64(&mut arena, &mut d2, 0);

    assert_ne!(d1, d2);
    assert_eq!(Ok(d1.to_vec()), hash64(&key_a(), b"x"));
    assert_eq!(Ok(d2.to_vec()), hash64(&key_b(), b"x"));
}

#[test]
fn create_in_slot_overwrites_a_live_session() {
    let mut arena = Arena::new();
    assert_eq!(arena.create_in_slot(3, &key_a()), Ok(3));
    assert_eq!(arena.append_to_slot(3, b"left over"), Ok(()));
    assert_eq!(arena.create_in_slot(3, &key_b()), Ok(3));
    assert_eq!(arena.append_to_slot(3, b"fresh"), Ok(()));
    let mut out = [0u8; 16];
    assert_eq!(
        arena.finalize_slot(3, DigestWidth::Bits128, &mut out),
        Ok(())
    );
    assert_eq!(Ok(out.to_vec()), hash128(&key_b(), b"fresh"));
}

#[test]
fn create_in_slot_rejects_a_short_key_and_keeps_the_slot() {
    let mut arena = Arena::new();
    assert_eq!(
        arena.create_in_slot(1, &[1, 2, 3]),
        Err(HashError::InvalidKeyLength)
    );
    assert_eq!(
        arena.append_to_slot(1, b"x"),
        Err(HashError::SlotNotOccupied)
    );

    assert_eq!(arena.create_in_slot(1, &key_a()), Ok(1));
    assert_eq!(arena.append_to_slot(1, b"ab"), Ok(()));
    assert_eq!(
        arena.create_in_slot(1, &[0u8; 31]),
        Err(HashError::InvalidKeyLength)
    );
    assert_eq!(arena.append_to_slot(1, b"cd"), Ok(()));
    let mut out = [0u8; 8];
    assert_eq!(arena.finalize_slot(1, DigestWidth::Bits64, &mut out), Ok(()));
    assert_eq!(Ok(out.to_vec()), hash64(&key_a(), b"abcd"));
}

#[test]
fn invalid_handle_is_judged_before_the_key() {
    let mut arena = Arena::new();
    let c = arena.capacity();
    assert_eq!(
        arena.create_in_slot(c, &[1, 2, 3]),
        Err(HashError::InvalidHandle)
    );
    assert_eq!(new_hasher(&mut arena, &[1, 2, 3], c), -1);
    assert_eq!(new_hasher(&mut arena, &[1, 2, 3], 0), -1);
    assert_eq!(
        arena.append_to_slot(0, b"x"),
        Err(HashError::SlotNotOccupied)
    );
}

#[test]
fn append_to_slot_rejects_bad_handles_and_empty_slots() {
    let mut arena = Arena::new();
    let c = arena.capacity();
    assert_eq!(arena.append_to_slot(c, b"x"), Err(HashError::InvalidHandle));
    assert_eq!(
        arena.append_to_slot(usize::MAX, b"x"),
        Err(HashError::InvalidHandle)
    );
    assert_eq!(
        arena.append_to_slot(0, b"x"),
        Err(HashError::SlotNotOccupied)
    );
    assert_eq!(arena.create_in_slot(0, &[]), Ok(0));
    assert_eq!(arena.append_to_slot(0, b"x"), Ok(()));
    assert_eq!(arena.append_to_slot(0, b""), Ok(()));
    assert_eq!(
        arena.append_to_slot(1, b"x"),
        Err(HashError::SlotNotOccupied)
    );
}

#[test]
fn finalize_slot_rejects_bad_handles_and_empty_slots() {
    let mut arena = Arena::new();
    let c = arena.capacity();
    let mut out = [0x11u8; 8];
    assert_eq!(
        arena.finalize_slot(c, DigestWidth::Bits64, &mut out),
        Err(HashError::InvalidHandle)
    );
    assert_eq!(
        arena.finalize_slot(0, DigestWidth::Bits64, &mut out),
        Err(HashError::SlotNotOccupied)
    );
    let mut wrong = [0x11u8; 3];
    assert_eq!(
        arena.finalize_slot(c, DigestWidth::Bits64, &mut wrong),
        Err(HashError::InvalidHandle)
    );
    assert_eq!(
        arena.finalize_slot(0, DigestWidth::Bits64, &mut wrong),
        Err(HashError::SlotNotOccupied)
    );
    assert_eq!(out, [0x11u8; 8]);
    assert_eq!(wrong, [0x11u8; 3]);
}

#[test]
fn finalize_slot_empties_the_slot() {
    let mut arena = Arena::new();
    assert_eq!(arena.create_in_slot(2, &key_a()), Ok(2));
    let mut out = [0u8; 32];
    assert_eq!(
        arena.finalize_slot(2, DigestWidth::Bits256, &mut out),
        Ok(())
    );
    assert_eq!(Ok(out.to_vec()), hash256(&key_a(), b""));
    let kept = out;
    assert_eq!(
        arena.finalize_slot(2, DigestWidth::Bits256, &mut out),
        Err(HashError::SlotNotOccupied)
    );
    assert_eq!(
        arena.finalize_slot(2, DigestWidth::Bits64, &mut out[..8]),
        Err(HashError::SlotNotOccupied)
    );
    assert_eq!(
        arena.append_to_slot(2, b"x"),
        Err(HashError::SlotNotOccupied)
    );
    assert_eq!(out, kept);
}

#[test]
fn finalize_slot_rejects_a_buffer_of_the_wrong_size_and_keeps_the_session() {
    let mut arena = Arena::new();
    assert_eq!(arena.create_in_slot(0, &key_a()), Ok(0));
    assert_eq!(arena.append_to_slot(0, b"payload"), Ok(()));
    let mut big = [0x22u8; 16];
    assert_eq!(
        arena.finalize_slot(0, DigestWidth::Bits64, &mut big),
        Err(HashError::DigestBufferSizeMismatch)
    );
    assert_eq!(big, [0x22u8; 16]);
    let mut small = [0x22u8; 8];
    assert_eq!(
        arena.finalize_slot(0, DigestWidth::Bits128, &mut small),
        Err(HashError::DigestBufferSizeMismatch)
    );
    assert_eq!(
        arena.finalize_slot(0, DigestWidth::Bits256, &mut small),
        Err(HashError::DigestBufferSizeMismatch)
    );
    let mut empty: [u8; 0] = [];
    assert_eq!(
        arena.finalize_slot(0, DigestWidth::Bits64, &mut empty),
        Err(HashError::DigestBufferSizeMismatch)
    );
    assert_eq!(small, [0x22u8; 8]);
    assert_eq!(
        arena.finalize_slot(0, DigestWidth::Bits64, &mut small),
        Ok(())
    );
    assert_eq!(Ok(small.to_vec()), hash64(&key_a(), b"payload"));
}

#[test]
fn finalize_slot_gives_the_digest_of_each_width() {
    for width in [
        DigestWidth::Bits64,
        DigestWidth::Bits128,
        DigestWidth::Bits256,
    ] {
        let mut arena = Arena::new();
        assert_eq!(arena.create_in_slot(7, &key_b()), Ok(7));
        assert_eq!(arena.append_to_slot(7, b"abcd"), Ok(()));
        assert_eq!(arena.append_to_slot(7, b"efgh"), Ok(()));
        let mut out = vec![0u8; width.byte_len()];
        assert_eq!(arena.finalize_slot(7, width, &mut out), Ok(()));
        assert_eq!(Ok(out), hash(&key_b(), b"abcdefgh", width));
    }
}

#[test]
fn slots_do_not_touch_each_other() {
    let mut arena = Arena::new();
    let last = arena.capacity() - 1;
    assert_eq!(arena.create_in_slot(0, &key_a()), Ok(0));
    assert_eq!(arena.create_in_slot(last, &key_b()), Ok(last));
    assert_eq!(arena.append_to_slot(0, b"one"), Ok(()));
    assert_eq!(arena.append_to_slot(last, b"two"), Ok(()));
    assert_eq!(arena.append_to_slot(0, b"three"), Ok(()));
    let mut first = [0u8; 8];
    assert_eq!(
        arena.finalize_slot(0, DigestWidth::Bits64, &mut first),
        Ok(())
    );
    assert_eq!(arena.append_to_slot(last, b"four"), Ok(()));
    let mut second = [0u8; 8];
    assert_eq!(
        arena.finalize_slot(last, DigestWidth::Bits64, &mut second),
        Ok(())
    );
    assert_eq!(Ok(first.to_vec()), hash64(&key_a(), b"onethree"));
    assert_eq!(Ok(second.to_vec()), hash64(&key_b(), b"twofour"));
}

#[test]
fn every_slot_can_hold_a_session() {
    let mut arena = Arena::new();
    let c = arena.capacity();
    for handle in 0..c {
        assert_eq!(arena.create_in_slot(handle, &[]), Ok(handle));
    }
    for handle in 0..c {
        assert_eq!(
            arena.append_to_slot(handle, &(handle as u64).to_le_bytes()),
            Ok(())
        );
    }
    for handle in [0, c / 2, c - 1] {
        let mut out = [0u8; 8];
        assert_eq!(
            arena.finalize_slot(handle, DigestWidth::Bits64, &mut out),
            Ok(())
        );
        assert_eq!(
            Ok(out.to_vec()),
            hash64(&[], &(handle as u64).to_le_bytes())
        );
    }
}

#[test]
fn sentinel_functions_do_nothing_on_a_bad_handle() {
    let mut arena = Arena::new();
    let c = arena.capacity();
    append(&mut arena, b"x", c);
    append(&mut arena, b"x", 0);
    let mut out8 = [0x33u8; 8];
    let mut out16 = [0x33u8; 16];
    let mut out32 = [0x33u8; 32];
    finalize64(&mut arena, &mut out8, c);
    finalize128(&mut arena, &mut out16, c);
    finalize256(&mut arena, &mut out32, c);
    finalize64(&mut arena, &mut out8, 0);
    finalize128(&mut arena, &mut out16, 0);
    finalize256(&mut arena, &mut out32, 0);
    assert_eq!(out8, [0x33u8; 8]);
    assert_eq!(out16, [0x33u8; 16]);
    assert_eq!(out32, [0x33u8; 32]);
    assert_eq!(
        arena.append_to_slot(0, b"x"),
        Err(HashError::SlotNotOccupied)
    );
}

#[test]
fn sentinel_finalize_writes_the_digest_of_its_width() {
    let mut arena = Arena::new();
    assert_eq!(new_hasher(&mut arena, &key_a(), 0), 0);
    assert_eq!(new_hasher(&mut arena, &key_a(), 1), 1);
    assert_eq!(new_hasher(&mut arena, &key_a(), 2), 2);
    for idx in 0..3 {
        append(&mut arena, &[255], idx);
    }
    let mut out8 = [0u8; 8];
    let mut out16 = [0u8; 16];
    let mut out32 = [0u8; 32];
    finalize64(&mut arena, &mut out8, 0);
    finalize128(&mut arena, &mut out16, 1);
    finalize256(&mut arena, &mut out32, 2);
    assert_eq!(out8, 0x7858_f24d_2d79_b2b2u64.to_le_bytes());
    assert_eq!(
        out16.to_vec(),
        lanes_to_bytes(&[0xbb00_7d24_62e7_7f3c, 0x2245_08f9_16b3_991f])
    );
    assert_eq!(
        out32.to_vec(),
        lanes_to_bytes(&[
            0x7161_cadb_f7cd_70e1,
            0xaac4_905d_e62b_2f5e,
            0x07b0_2b93_6933_faa7,
            0xc8ef_cfc4_5b23_9f8d,
        ])
    );
    for idx in 0..3 {
        assert_eq!(
            arena.append_to_slot(idx, b"x"),
            Err(HashError::SlotNotOccupied)
        );
    }
}

#[test]
fn sentinel_finalize_leaves_a_buffer_of_the_wrong_size_alone() {
    let mut arena = Arena::new();
    assert_eq!(new_hasher(&mut arena, &key_a(), 0), 0);
    append(&mut arena, b"data", 0);
    let mut out = [0x44u8; 16];
    finalize64(&mut arena, &mut out, 0);
    assert_eq!(out, [0x44u8; 16]);
    finalize128(&mut arena, &mut out, 0);
    assert_eq!(Ok(out.to_vec()), hash128(&key_a(), b"data"));
}
