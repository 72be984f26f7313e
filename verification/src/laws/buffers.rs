//! What becomes of a buffer.

use vstd::prelude::*;

use crate::buffer::{allocated_v4l2_buffer, Buffer, BufferState};
use crate::v4l2::{MemoryType, QueueType, Timeval, V4l2Buffer};

verus! {

/// Whether `after` is the same buffer as `before` in all that a guest goes by to find it: its
/// storage, the offset that maps it, both as kept and as told, its index, kind and size.
pub open spec fn keeps_place<F>(before: Buffer<F>, after: Buffer<F>) -> bool {
    &&& after.fd == before.fd
    &&& after.offset == before.offset
    &&& after.v4l2_buffer.mem_offset == before.v4l2_buffer.mem_offset
    &&& after.v4l2_buffer.index == before.v4l2_buffer.index
    &&& after.v4l2_buffer.queue == before.v4l2_buffer.queue
    &&& after.v4l2_buffer.memory == before.v4l2_buffer.memory
    &&& after.v4l2_buffer.field == before.v4l2_buffer.field
    &&& after.v4l2_buffer.length == before.v4l2_buffer.length
}

/// Whether `after` has the flags of `before` that V4L2 knows, but for the queued flag, which is set
/// if and only if `queued`.
pub open spec fn keeps_flags(before: V4l2Buffer, after: V4l2Buffer, queued: bool) -> bool {
    &&& after.flags & !2u32 == before.flags & 0x0091_7d7f & !2u32
    &&& after.flags & 2 != 0 <==> queued
}

/// Whether `time` is that of the frame with this sequence number: the frames are counted from one,
/// modulo 2^32, with a thousand of them to a second.
pub open spec fn is_time_of(time: Timeval, sequence: u32) -> bool {
    &&& time.tv_sec >= 0
    &&& 0 <= time.tv_usec < 1000
    &&& 1000 * time.tv_sec + time.tv_usec == (if sequence == 0xffff_ffff {
        0
    } else {
        sequence + 1
    })
}

/// Whether `after` is `before` once it waits for no frame and holds none.
pub open spec fn is_made_new<F>(before: Buffer<F>, after: Buffer<F>) -> bool {
    &&& keeps_place(before, after)
    &&& keeps_flags(before.v4l2_buffer, after.v4l2_buffer, false)
    &&& after.state == BufferState::New
    &&& after.v4l2_buffer.bytesused == 0
    &&& after.v4l2_buffer.sequence == before.v4l2_buffer.sequence
    &&& after.v4l2_buffer.timestamp == before.v4l2_buffer.timestamp
}

/// Whether `after` is `before` once it waits for a frame.
pub open spec fn is_made_to_wait<F>(before: Buffer<F>, after: Buffer<F>) -> bool {
    &&& keeps_place(before, after)
    &&& keeps_flags(before.v4l2_buffer, after.v4l2_buffer, true)
    &&& after.state == BufferState::Incoming
    &&& after.v4l2_buffer.bytesused == 0
    &&& after.v4l2_buffer.sequence == before.v4l2_buffer.sequence
    &&& after.v4l2_buffer.timestamp == before.v4l2_buffer.timestamp
}

/// Whether `after` is `before` once it is ready for dequeue, as the frame with this sequence
/// number.
pub open spec fn is_made_ready<F>(before: Buffer<F>, after: Buffer<F>, sequence: u32) -> bool {
    &&& keeps_place(before, after)
    &&& keeps_flags(before.v4l2_buffer, after.v4l2_buffer, false)
    &&& after.state == (BufferState::Outgoing { sequence })
    &&& after.v4l2_buffer.sequence == sequence
    &&& is_time_of(after.v4l2_buffer.timestamp, sequence)
}

/// Facts about the bits of the flags.
pub(crate) proof fn lemma_flag_bits(flags: u32)
    ensures
        (flags & 0x0091_7d7f & !2u32) & 2 == 0,
        (flags & 0x0091_7d7f & !2u32) & !2u32 == flags & 0x0091_7d7f & !2u32,
        ((flags & 0x0091_7d7f) | 2) & 2 != 0,
        ((flags & 0x0091_7d7f) | 2) & !2u32 == flags & 0x0091_7d7f & !2u32,
{
    assert((flags & 0x0091_7d7f & !2u32) & 2 == 0) by (bit_vector);
    assert((flags & 0x0091_7d7f & !2u32) & !2u32 == flags & 0x0091_7d7f & !2u32) by (bit_vector);
    assert(((flags & 0x0091_7d7f) | 2) & 2 != 0) by (bit_vector);
    assert(((flags & 0x0091_7d7f) | 2) & !2u32 == flags & 0x0091_7d7f & !2u32) by (bit_vector);
}

/// A buffer that was just allocated is told of by its index and the offset that maps it: a capture
/// buffer of `MMAP` memory with room for 460800 bytes, none of them used, progressive, never
/// filled, with a monotonic timestamp and no other flag.
pub proof fn lemma_allocated_buffer_is_told_of(index: u32, offset: u32, guest: V4l2Buffer)
    requires
        call_ensures(allocated_v4l2_buffer, (index, offset), guest),
    ensures
        guest.index == index,
        guest.mem_offset == offset,
        guest.queue == QueueType::VideoCapture,
        guest.memory == MemoryType::Mmap,
        guest.length == 460_800,
        guest.bytesused == 0,
        guest.field == 1,
        guest.flags == 0x2000,
        guest.sequence == 0,
        guest.timestamp.tv_sec == 0,
        guest.timestamp.tv_usec == 0,
{
}

/// A buffer starts new, with what it was made of.
pub proof fn lemma_buffer_starts_new<F>(guest: V4l2Buffer, fd: F, offset: u32, buffer: Buffer<F>)
    requires
        call_ensures(Buffer::<F>::new, (guest, fd, offset), buffer),
    ensures
        buffer.state == BufferState::New,
        buffer.v4l2_buffer == guest,
        buffer.fd == fd,
        buffer.offset == offset,
{
}

/// Unsetting flags leaves none of them and none that V4L2 does not know, and loses no other.
pub proof fn lemma_unset_flags_are_gone<F>(flags: &mut u32, v: u32)
    requires
        call_ensures(Buffer::<F>::unset_flag, (flags, v), ()),
    ensures
        *final(flags) & v == 0,
        *final(flags) & !0x0091_7d7fu32 == 0,
        *final(flags) | (*old(flags) & v & 0x0091_7d7f) == *old(flags) & 0x0091_7d7f,
{
    let before = *old(flags);
    assert((before & 0x0091_7d7f & !v) & v == 0) by (bit_vector);
    assert((before & 0x0091_7d7f & !v) & !0x0091_7d7fu32 == 0) by (bit_vector);
    assert((before & 0x0091_7d7f & !v) | (before & v & 0x0091_7d7f) == before & 0x0091_7d7f)
        by (bit_vector);
}

/// A buffer goes into the state it is set to and keeps its place. New and waiting buffers hold no
/// bytes; a ready one keeps the count it has, and tells the number and the time of its frame.
pub proof fn lemma_state_is_set<F>(buffer: &mut Buffer<F>, state: BufferState)
    requires
        call_ensures(Buffer::<F>::set_state, (buffer, state), ()),
    ensures
        keeps_place(*old(buffer), *final(buffer)),
        final(buffer).state == state,
        match state {
            BufferState::New => is_made_new(*old(buffer), *final(buffer)),
            BufferState::Incoming => is_made_to_wait(*old(buffer), *final(buffer)),
            BufferState::Outgoing { sequence } => {
                &&& is_made_ready(*old(buffer), *final(buffer), sequence)
                &&& final(buffer).v4l2_buffer.bytesused == old(buffer).v4l2_buffer.bytesused
            },
        },
{
    lemma_flag_bits(old(buffer).v4l2_buffer.flags);
}

/// The last state decides: a buffer that was set to one state and then to another is as if it was
/// set to the second alone, but for the frame it was last ready with.
pub proof fn lemma_last_state_decides<F>(
    first: &mut Buffer<F>,
    then: &mut Buffer<F>,
    alone: &mut Buffer<F>,
    state: BufferState,
    last: BufferState,
)
    requires
        *old(then) == *final(first),
        *old(alone) == *old(first),
        call_ensures(Buffer::<F>::set_state, (first, state), ()),
        call_ensures(Buffer::<F>::set_state, (then, last), ()),
        call_ensures(Buffer::<F>::set_state, (alone, last), ()),
        !(state is Outgoing),
        !(last is Outgoing),
    ensures
        *final(then) == *final(alone),
{
    let flags = old(first).v4l2_buffer.flags;
    assert((flags & 0x0091_7d7f & !2u32) & 0x0091_7d7f & !2u32 == flags & 0x0091_7d7f & !2u32)
        by (bit_vector);
    assert(((flags & 0x0091_7d7f) | 2) & 0x0091_7d7f & !2u32 == flags & 0x0091_7d7f & !2u32)
        by (bit_vector);
    assert(((flags & 0x0091_7d7f & !2u32) & 0x0091_7d7f) | 2 == (flags & 0x0091_7d7f) | 2)
        by (bit_vector);
    assert((((flags & 0x0091_7d7f) | 2) & 0x0091_7d7f) | 2 == (flags & 0x0091_7d7f) | 2)
        by (bit_vector);
}

} // verus!
