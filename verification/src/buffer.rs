//! One buffer and its state.

use vstd::prelude::*;

use crate::frame::BUFFER_SIZE;
use crate::v4l2::{
    MemoryType, QueueType, Timeval, V4l2Buffer, V4L2_BUF_FLAGS_KNOWN, V4L2_BUF_FLAG_QUEUED,
    V4L2_BUF_FLAG_TIMESTAMP_MONOTONIC, V4L2_FIELD_NONE,
};

verus! {

/// Current status of a buffer.
#[derive(Debug, Clone, Copy, PartialEq, Eq, Structural)]
pub enum BufferState {
    /// Buffer has just been created (or streamed off) and not been used yet.
    New,
    /// Buffer has been queued by the guest but not yet processed.
    Incoming,
    /// Buffer has been processed and is ready for dequeue.
    Outgoing {
        /// Sequence of the generated frame.
        sequence: u32,
    },
}

/// Information about a single buffer, backed by storage of type `F`.
pub struct Buffer<F> {
    /// Current state of the buffer.
    pub state: BufferState,
    /// Representation of this buffer to be sent to the guest when requested.
    pub v4l2_buffer: V4l2Buffer,
    /// Backing storage for the buffer.
    pub fd: F,
    /// Offset that can be used to map the buffer.
    ///
    /// Cached from `v4l2_buffer`.
    pub offset: u32,
}

/// Timestamp of the frame with this sequence number: the number of the frame, counted from one
/// and modulo 2^32, split into its thousands and the rest.
pub open spec fn frame_timestamp(sequence: u32) -> Timeval {
    let frame = (sequence + 1) % 0x1_0000_0000;
    Timeval { tv_sec: (frame / 1000) as i64, tv_usec: (frame % 1000) as i64 }
}

/// What the guest is told of a buffer that was just allocated.
pub open spec fn new_v4l2_buffer(index: u32, offset: u32) -> V4l2Buffer {
    V4l2Buffer {
        index,
        queue: QueueType::VideoCapture,
        memory: MemoryType::Mmap,
        flags: V4L2_BUF_FLAG_TIMESTAMP_MONOTONIC,
        field: V4L2_FIELD_NONE,
        timestamp: Timeval { tv_sec: 0, tv_usec: 0 },
        sequence: 0,
        bytesused: 0,
        length: BUFFER_SIZE,
        mem_offset: offset,
    }
}

/// What the guest is told of a buffer once its state is `state`. Flags that are not known are
/// dropped.
pub open spec fn v4l2_buffer_in_state(buffer: V4l2Buffer, state: BufferState) -> V4l2Buffer {
    match state {
        BufferState::New => V4l2Buffer {
            bytesused: 0,
            flags: buffer.flags & V4L2_BUF_FLAGS_KNOWN & !V4L2_BUF_FLAG_QUEUED,
            ..buffer
        },
        BufferState::Incoming => V4l2Buffer {
            bytesused: 0,
            flags: (buffer.flags & V4L2_BUF_FLAGS_KNOWN) | V4L2_BUF_FLAG_QUEUED,
            ..buffer
        },
        BufferState::Outgoing { sequence } => V4l2Buffer {
            sequence,
            timestamp: frame_timestamp(sequence),
            flags: buffer.flags & V4L2_BUF_FLAGS_KNOWN & !V4L2_BUF_FLAG_QUEUED,
            ..buffer
        },
    }
}

/// Describes a buffer that was just allocated and can be mapped at `offset`.
pub fn allocated_v4l2_buffer(index: u32, offset: u32) -> (buffer: V4l2Buffer)
    ensures
        buffer == new_v4l2_buffer(index, offset),
{
    V4l2Buffer {
        index,
        queue: QueueType::VideoCapture,
        memory: MemoryType::Mmap,
        flags: V4L2_BUF_FLAG_TIMESTAMP_MONOTONIC,
        field: V4L2_FIELD_NONE,
        timestamp: Timeval { tv_sec: 0, tv_usec: 0 },
        sequence: 0,
        bytesused: 0,
        length: BUFFER_SIZE,
        mem_offset: offset,
    }
}

impl<F> Buffer<F> {
    /// This buffer after its state was set to `state`.
    pub open spec fn in_state(self, state: BufferState) -> Buffer<F> {
        Buffer { state, v4l2_buffer: v4l2_buffer_in_state(self.v4l2_buffer, state), ..self }
    }

    /// This buffer after a whole frame was stored in it, as the frame with this sequence number.
    pub open spec fn filled(self, sequence: u32) -> Buffer<F> {
        Buffer {
            v4l2_buffer: V4l2Buffer { bytesused: BUFFER_SIZE, ..self.v4l2_buffer },
            ..self
        }.in_state(BufferState::Outgoing { sequence })
    }

    /// Whether this buffer is a proper buffer number `index` of a session: what the guest is
    /// told agrees with the state and with the cached offset.
    pub open spec fn wf(self, index: int) -> bool {
        let guest = self.v4l2_buffer;
        &&& guest.index == index
        &&& guest.queue == QueueType::VideoCapture
        &&& guest.memory == MemoryType::Mmap
        &&& guest.field == V4L2_FIELD_NONE
        &&& guest.length == BUFFER_SIZE
        &&& guest.mem_offset == self.offset
        &&& match self.state {
            BufferState::New => {
                &&& guest.bytesused == 0
                &&& guest.flags == V4L2_BUF_FLAG_TIMESTAMP_MONOTONIC
            },
            BufferState::Incoming => {
                &&& guest.bytesused == 0
                &&& guest.flags == V4L2_BUF_FLAG_TIMESTAMP_MONOTONIC | V4L2_BUF_FLAG_QUEUED
            },
            BufferState::Outgoing { sequence } => {
                &&& guest.bytesused == BUFFER_SIZE
                &&& guest.flags == V4L2_BUF_FLAG_TIMESTAMP_MONOTONIC
                &&& guest.sequence == sequence
                &&& guest.timestamp == frame_timestamp(sequence)
            },
        }
    }

    /// Creates a buffer that has not been used yet.
    pub fn new(v4l2_buffer: V4l2Buffer, fd: F, offset: u32) -> (buffer: Self)
        ensures
            buffer == (Buffer { state: BufferState::New, v4l2_buffer, fd, offset }),
    {
        Buffer { state: BufferState::New, v4l2_buffer, fd, offset }
    }

    /// Leaves those known bits of `flags` that `v` does not have.
    pub fn unset_flag(flags: &mut u32, v: u32)
        ensures
            *final(flags) == *old(flags) & V4L2_BUF_FLAGS_KNOWN & !v,
    {
        *flags = *flags & V4L2_BUF_FLAGS_KNOWN & !v;
    }

    /// Updates the state of the buffer as well as what the guest is told of it.
    pub fn set_state(&mut self, state: BufferState)
        ensures
            *final(self) == old(self).in_state(state),
    {
        let mut flags: u32 = self.v4l2_buffer.flags & V4L2_BUF_FLAGS_KNOWN;
        assert(flags & V4L2_BUF_FLAGS_KNOWN == flags) by {
            let all = self.v4l2_buffer.flags;
            assert((all & V4L2_BUF_FLAGS_KNOWN) & V4L2_BUF_FLAGS_KNOWN == all
                & V4L2_BUF_FLAGS_KNOWN) by (bit_vector);
        }
        match state {
            BufferState::New => {
                self.v4l2_buffer.bytesused = 0;
                Self::unset_flag(&mut flags, V4L2_BUF_FLAG_QUEUED);
            },
            BufferState::Incoming => {
                self.v4l2_buffer.bytesused = 0;
                flags = flags | V4L2_BUF_FLAG_QUEUED;
            },
            BufferState::Outgoing { sequence } => {
                self.v4l2_buffer.sequence = sequence;
                let frame: i64 = sequence.wrapping_add(1) as i64;
                self.v4l2_buffer.timestamp = Timeval {
                    tv_sec: frame / 1000,
                    tv_usec: frame % 1000,
                };
                Self::unset_flag(&mut flags, V4L2_BUF_FLAG_QUEUED);
            },
        }
        self.v4l2_buffer.flags = flags;
        self.state = state;
    }
}

/// Setting a state moves the queued flag with it, leaves every other known flag alone, and drops
/// those that are not known.
pub proof fn lemma_queued_flag_follows_state(buffer: V4l2Buffer, state: BufferState)
    ensures
        v4l2_buffer_in_state(buffer, state).flags & V4L2_BUF_FLAG_QUEUED != 0 <==> state
            == BufferState::Incoming,
        v4l2_buffer_in_state(buffer, state).flags & !V4L2_BUF_FLAG_QUEUED == buffer.flags
            & V4L2_BUF_FLAGS_KNOWN & !V4L2_BUF_FLAG_QUEUED,
        v4l2_buffer_in_state(buffer, state).flags & !V4L2_BUF_FLAGS_KNOWN == 0,
{
    let flags = buffer.flags;
    assert((flags & 0x0091_7d7fu32 & !2u32) & 2 == 0) by (bit_vector);
    assert((flags & 0x0091_7d7fu32 & !2u32) & !2u32 == flags & 0x0091_7d7fu32 & !2u32)
        by (bit_vector);
    assert((flags & 0x0091_7d7fu32 & !2u32) & !0x0091_7d7fu32 == 0) by (bit_vector);
    assert(((flags & 0x0091_7d7fu32) | 2u32) & 2 != 0) by (bit_vector);
    assert(((flags & 0x0091_7d7fu32) | 2u32) & !2u32 == flags & 0x0091_7d7fu32 & !2u32)
        by (bit_vector);
    assert(((flags & 0x0091_7d7fu32) | 2u32) & !0x0091_7d7fu32 == 0) by (bit_vector);
}

/// Both parts of a timestamp together count the frames from one: a second for every thousand of
/// them and the rest in the second part, until the count reaches 2^32.
pub proof fn lemma_timestamp_counts_frames(sequence: u32)
    ensures
        sequence < u32::MAX ==> frame_timestamp(sequence).tv_sec * 1000 + frame_timestamp(
            sequence,
        ).tv_usec == sequence + 1,
        0 <= frame_timestamp(sequence).tv_usec < 1000,
{
}

/// A buffer that was just allocated is a proper buffer.
pub proof fn lemma_new_buffer_wf<F>(index: u32, fd: F, offset: u32)
    ensures
        (Buffer {
            state: BufferState::New,
            v4l2_buffer: new_v4l2_buffer(index, offset),
            fd,
            offset,
        }).wf(index as int),
{
}

/// A proper buffer stays one when it is reset, queued or filled.
pub proof fn lemma_state_change_keeps_wf<F>(buffer: Buffer<F>, index: int, sequence: u32)
    requires
        buffer.wf(index),
    ensures
        buffer.in_state(BufferState::New).wf(index),
        buffer.in_state(BufferState::Incoming).wf(index),
        buffer.filled(sequence).wf(index),
{
    assert(0x2000u32 & 0x0091_7d7fu32 & !2u32 == 0x2000) by (bit_vector);
    assert((0x2000u32 | 2u32) & 0x0091_7d7fu32 & !2u32 == 0x2000) by (bit_vector);
    assert((0x2000u32 & 0x0091_7d7fu32) | 2u32 == 0x2000u32 | 2u32) by (bit_vector);
    assert(((0x2000u32 | 2u32) & 0x0091_7d7fu32) | 2u32 == 0x2000u32 | 2u32) by (bit_vector);
}

} // verus!
