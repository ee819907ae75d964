//! The instance arena: a table of slots of fixed capacity, each able to hold
//! one session, addressed by integer handles. It serves hosts that can keep
//! nothing but a number between two calls.
//!
//! A handle is an index and no more. Handles carry no generation: a handle
//! kept from an earlier use of a slot refers to whatever the slot holds now.
//! Every entry point checks its handle against the capacity on its own.

use crate::error::{DigestWidth, HashError};
use crate::key::{create_key, derived_key};
use crate::session::{hashed, Session, SessionState};
use crate::stream::Stream;
use highway::HighwayHasher;
use vstd::prelude::*;

verus! {

/// The size in bytes of the block of memory that one arena fills.
pub const PAGE_SIZE: usize = 65536;

/// The state of one slot.
pub enum SlotState {
    /// The slot holds no session.
    Empty,
    /// The slot holds a live session with this account.
    Occupied(Stream),
}

/// The number of sessions of `elem_size` bytes each that fit into one page.
/// A session that took no room would leave the quotient undefined; no slot is
/// counted then.
pub open spec fn slots_per_page(elem_size: nat) -> nat {
    if elem_size == 0 {
        0
    } else {
        PAGE_SIZE as nat / elem_size
    }
}

/// The state of a slot with the given content.
pub open spec fn slot_state(slot: Option<Session>) -> SlotState {
    match slot {
        Some(session) => match session@ {
            SessionState::Active(stream) => SlotState::Occupied(stream),
            SessionState::Finalized => SlotState::Empty,
        },
        None => SlotState::Empty,
    }
}

/// What creating a session in a slot leads to: the table with the slot
/// occupied by a fresh session, whatever it held before, or the reason why
/// nothing was created. The handle is judged first, then the key buffer.
pub open spec fn create_outcome(slots: Seq<SlotState>, handle: usize, key_buffer: Seq<u8>) -> Result<
    Seq<SlotState>,
    HashError,
> {
    if handle >= slots.len() {
        Err(HashError::InvalidHandle)
    } else {
        match derived_key(key_buffer) {
            Ok(key) => Ok(slots.update(handle as int, SlotState::Occupied(Stream::start(key)))),
            Err(e) => Err(e),
        }
    }
}

/// What appending to a slot leads to: the table with the bytes fed to the
/// session of the slot, or the reason why nothing was fed.
pub open spec fn append_outcome(slots: Seq<SlotState>, handle: usize, data: Seq<u8>) -> Result<
    Seq<SlotState>,
    HashError,
> {
    if handle >= slots.len() {
        Err(HashError::InvalidHandle)
    } else {
        match slots[handle as int] {
            SlotState::Occupied(stream) => Ok(
                slots.update(handle as int, SlotState::Occupied(stream.fed(data))),
            ),
            SlotState::Empty => Err(HashError::SlotNotOccupied),
        }
    }
}

/// What finalizing a slot into an output buffer of `out_len` bytes leads to:
/// the table with the slot empty, and the digest; or the reason why nothing
/// was done. The handle is judged first, then the slot, then the buffer.
pub open spec fn finalize_outcome(
    slots: Seq<SlotState>,
    handle: usize,
    width: DigestWidth,
    out_len: nat,
) -> Result<(Seq<SlotState>, Seq<u8>), HashError> {
    if handle >= slots.len() {
        Err(HashError::InvalidHandle)
    } else {
        match slots[handle as int] {
            SlotState::Occupied(stream) => if out_len == width.bytes() {
                Ok((slots.update(handle as int, SlotState::Empty), stream.digest(width)))
            } else {
                Err(HashError::DigestBufferSizeMismatch)
            },
            SlotState::Empty => Err(HashError::SlotNotOccupied),
        }
    }
}

/// The capacity of an arena: the number of sessions that fit into one page.
pub fn max_instances() -> (n: usize)
    ensures
        n == slots_per_page(vstd::layout::size_of::<HighwayHasher>()),
        n <= PAGE_SIZE,
{
    let elem_size: usize = core::mem::size_of::<HighwayHasher>();
    if elem_size == 0 {
        0
    } else {
        PAGE_SIZE / elem_size
    }
}

/// A table of `max_instances()` slots. It is made once, with every slot empty,
/// and the caller hands it to every operation. The table is allocated when
/// the arena is made; no operation on it allocates, and none resizes it.
pub struct Arena {
    slots: Vec<Option<Session>>,
}

impl View for Arena {
    type V = Seq<SlotState>;

    closed spec fn view(&self) -> Seq<SlotState> {
        Seq::new(self.slots@.len(), |i: int| slot_state(self.slots@[i]))
    }
}

impl Arena {
    #[verifier::type_invariant]
    spec fn within_page(self) -> bool {
        self.slots@.len() <= PAGE_SIZE
    }

    /// Makes the arena: `max_instances()` slots, all empty.
    pub fn new() -> (arena: Arena)
        ensures
            arena@.len() == slots_per_page(vstd::layout::size_of::<HighwayHasher>()),
            forall|i: int| 0 <= i < arena@.len() ==> arena@[i] == SlotState::Empty,
    {
        let capacity: usize = max_instances();
        let mut slots: Vec<Option<Session>> = Vec::with_capacity(capacity);
        while slots.len() < capacity
            invariant
                slots@.len() <= capacity,
                forall|i: int| 0 <= i < slots@.len() ==> slots@[i] is None,
            decreases capacity - slots@.len(),
        {
            slots.push(None);
        }
        Arena { slots }
    }

    /// The number of slots. Valid handles are `0 .. capacity()`.
    pub fn capacity(&self) -> (n: usize)
        ensures
            n == self@.len(),
            n <= PAGE_SIZE,
    {
        proof {
            use_type_invariant(self);
        }
        self.slots.len()
    }

    /// Starts a session in slot `handle` under the key that `key_buffer`
    /// stands for, and returns the handle. What the slot held before is
    /// dropped: a slot may be reused for one computation after another
    /// without finalizing in between. A handle that is not below the capacity
    /// is rejected with `InvalidHandle`, a key buffer of 1 to 31 bytes with
    /// `InvalidKeyLength`; the arena is then unchanged.
    pub fn create_in_slot(&mut self, handle: usize, key_buffer: &[u8]) -> (r: Result<
        usize,
        HashError,
    >)
        ensures
            match create_outcome(old(self)@, handle, key_buffer@) {
                Ok(after) => r == Ok::<usize, HashError>(handle) && final(self)@ == after,
                Err(e) => r == Err::<usize, HashError>(e) && final(self)@ == old(self)@,
            },
    {
        proof {
            use_type_invariant(&*self);
        }
        if handle >= self.slots.len() {
            return Err(HashError::InvalidHandle);
        }
        match create_key(key_buffer) {
            Ok(key) => {
                self.slots[handle] = Some(Session::new(key));
                assert(self@ =~= old(self)@.update(
                    handle as int,
                    SlotState::Occupied(Stream::start(key@)),
                ));
                Ok(handle)
            },
            Err(e) => Err(e),
        }
    }

    /// Feeds `data` to the session in slot `handle`. A handle that is not
    /// below the capacity is rejected with `InvalidHandle`, a slot that holds
    /// no session with `SlotNotOccupied`; the arena is then unchanged.
    pub fn append_to_slot(&mut self, handle: usize, data: &[u8]) -> (r: Result<(), HashError>)
        ensures
            match append_outcome(old(self)@, handle, data@) {
                Ok(after) => r == Ok::<(), HashError>(()) && final(self)@ == after,
                Err(e) => r == Err::<(), HashError>(e) && final(self)@ == old(self)@,
            },
    {
        proof {
            use_type_invariant(&*self);
        }
        if handle >= self.slots.len() {
            return Err(HashError::InvalidHandle);
        }
        let fed: Result<(), HashError> = match &mut self.slots[handle] {
            Some(session) => session.append(data),
            None => Err(HashError::SlotNotOccupied),
        };
        match fed {
            Ok(()) => {
                assert(self@ =~= append_outcome(old(self)@, handle, data@)->Ok_0);
                Ok(())
            },
            Err(_) => {
                assert(self@ =~= old(self)@);
                Err(HashError::SlotNotOccupied)
            },
        }
    }

    /// Ends the session in slot `handle` and writes its digest of the given
    /// width into `out`, whose length must be that of the digest: 8, 16 or 32
    /// bytes. The slot is empty afterwards and can take a new session. A
    /// handle that is not below the capacity is rejected with
    /// `InvalidHandle`, a slot that holds no session with `SlotNotOccupied`,
    /// an output buffer of another length with `DigestBufferSizeMismatch`;
    /// the arena and `out` are then unchanged.
    pub fn finalize_slot(&mut self, handle: usize, width: DigestWidth, out: &mut [u8]) -> (r:
        Result<(), HashError>)
        ensures
            match finalize_outcome(old(self)@, handle, width, old(out)@.len()) {
                Ok((after, digest)) => r == Ok::<(), HashError>(()) && final(self)@ == after
                    && final(out)@ == digest,
                Err(e) => r == Err::<(), HashError>(e) && final(self)@ == old(self)@
                    && final(out)@ == old(out)@,
            },
    {
        proof {
            use_type_invariant(&*self);
        }
        if handle >= self.slots.len() {
            return Err(HashError::InvalidHandle);
        }
        let done: Result<(), HashError> = match &mut self.slots[handle] {
            Some(session) => session.finalize_into(width, out),
            None => Err(HashError::SlotNotOccupied),
        };
        match done {
            Ok(()) => {
                self.slots[handle] = None;
                assert(self@ =~= old(self)@.update(handle as int, SlotState::Empty));
                Ok(())
            },
            Err(HashError::DigestBufferSizeMismatch) => {
                assert(self@ =~= old(self)@);
                Err(HashError::DigestBufferSizeMismatch)
            },
            Err(_) => {
                assert(self@ =~= old(self)@);
                Err(HashError::SlotNotOccupied)
            },
        }
    }
}

/// Starts a session in slot `idx`, for a host that has no channel for
/// errors. Returns `idx` where the session was created, and -1, which is no
/// handle, where it was not: for an `idx` that is not below the capacity and
/// for a key buffer of 1 to 31 bytes. The arena is unchanged where -1 is
/// returned.
pub fn new_hasher(arena: &mut Arena, key_data: &[u8], idx: usize) -> (r: i32)
    ensures
        match create_outcome(old(arena)@, idx, key_data@) {
            Ok(after) => r == idx && final(arena)@ == after,
            Err(_) => r == -1 && final(arena)@ == old(arena)@,
        },
{
    if idx >= arena.capacity() {
        return -1;
    }
    match arena.create_in_slot(idx, key_data) {
        Ok(handle) => handle as i32,
        Err(_) => -1,
    }
}

/// Feeds `data` to the session in slot `idx`, for a host that has no channel
/// for errors. Where `idx` is not below the capacity or the slot holds no
/// session, nothing is done.
pub fn append(arena: &mut Arena, data: &[u8], idx: usize)
    ensures
        match append_outcome(old(arena)@, idx, data@) {
            Ok(after) => final(arena)@ == after,
            Err(_) => final(arena)@ == old(arena)@,
        },
{
    let _ = arena.append_to_slot(idx, data);
}

/// Ends the session in slot `idx` and writes its 64-bit digest into the 8
/// bytes of `out`, for a host that has no channel for errors. Where `idx` is
/// not below the capacity, the slot holds no session or `out` is not 8 bytes
/// long, nothing is done and nothing is written: the caller must not take what
/// `out` holds for a digest then.
pub fn finalize64(arena: &mut Arena, out: &mut [u8], idx: usize)
    ensures
        match finalize_outcome(old(arena)@, idx, DigestWidth::Bits64, old(out)@.len()) {
            Ok((after, digest)) => final(arena)@ == after && final(out)@ == digest,
            Err(_) => final(arena)@ == old(arena)@ && final(out)@ == old(out)@,
        },
{
    let _ = arena.finalize_slot(idx, DigestWidth::Bits64, out);
}

/// Ends the session in slot `idx` and writes its 128-bit digest into the 16
/// bytes of `out`, for a host that has no channel for errors. Where `idx` is
/// not below the capacity, the slot holds no session or `out` is not 16 bytes
/// long, nothing is done and nothing is written.
pub fn finalize128(arena: &mut Arena, out: &mut [u8], idx: usize)
    ensures
        match finalize_outcome(old(arena)@, idx, DigestWidth::Bits128, old(out)@.len()) {
            Ok((after, digest)) => final(arena)@ == after && final(out)@ == digest,
            Err(_) => final(arena)@ == old(arena)@ && final(out)@ == old(out)@,
        },
{
    let _ = arena.finalize_slot(idx, DigestWidth::Bits128, out);
}

/// Ends the session in slot `idx` and writes its 256-bit digest into the 32
/// bytes of `out`, for a host that has no channel for errors. Where `idx` is
/// not below the capacity, the slot holds no session or `out` is not 32 bytes
/// long, nothing is done and nothing is written.
pub fn finalize256(arena: &mut Arena, out: &mut [u8], idx: usize)
    ensures
        match finalize_outcome(old(arena)@, idx, DigestWidth::Bits256, old(out)@.len()) {
            Ok((after, digest)) => final(arena)@ == after && final(out)@ == digest,
            Err(_) => final(arena)@ == old(arena)@ && final(out)@ == old(out)@,
        },
{
    let _ = arena.finalize_slot(idx, DigestWidth::Bits256, out);
}

/// Capacity boundary: creating fails with `InvalidHandle` for every handle
/// from the capacity on, whatever the key buffer, and succeeds for every
/// handle below it that comes with a key buffer that stands for a key.
pub proof fn lemma_capacity_boundary(slots: Seq<SlotState>, handle: usize, key_buffer: Seq<u8>)
    ensures
        handle >= slots.len() ==> create_outcome(slots, handle, key_buffer) == Err::<
            Seq<SlotState>,
            HashError,
        >(HashError::InvalidHandle),
        handle < slots.len() && derived_key(key_buffer) is Ok ==> create_outcome(
            slots,
            handle,
            key_buffer,
        ) is Ok,
{
}

/// Reuse: a session created in a slot, fed once and finalized gives the
/// digest of those bytes under its own key, whatever the slot held before,
/// and leaves the slot empty for the next use.
pub proof fn lemma_slot_reuse(
    slots: Seq<SlotState>,
    handle: usize,
    key_buffer: Seq<u8>,
    data: Seq<u8>,
    width: DigestWidth,
)
    requires
        handle < slots.len(),
        derived_key(key_buffer) is Ok,
    ensures
        ({
            let created = create_outcome(slots, handle, key_buffer)->Ok_0;
            let fed = append_outcome(created, handle, data)->Ok_0;
            &&& create_outcome(slots, handle, key_buffer) is Ok
            &&& append_outcome(created, handle, data) is Ok
            &&& finalize_outcome(fed, handle, width, width.bytes()) == Ok::<
                (Seq<SlotState>, Seq<u8>),
                HashError,
            >((slots.update(handle as int, SlotState::Empty), hashed(key_buffer, data, width)->Ok_0))
        }),
{
    let created = create_outcome(slots, handle, key_buffer)->Ok_0;
    let fed = append_outcome(created, handle, data)->Ok_0;
    assert(fed.update(handle as int, SlotState::Empty) =~= slots.update(
        handle as int,
        SlotState::Empty,
    ));
}

} // verus!
