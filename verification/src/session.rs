//! The buffers of one session and the frames delivered through them.

use std::collections::VecDeque;
use vstd::prelude::*;

use crate::buffer::{lemma_state_change_keeps_wf, Buffer, BufferState};
use crate::frame::BUFFER_SIZE;
use crate::v4l2::DequeueBufferEvent;

verus! {

/// Most buffers that a session can have.
pub const MAX_BUFFERS: u32 = 32;

/// Session data of [`crate::camera::EmulatedCamera`], its buffers backed by storage of type `F`.
pub struct EmulatedCameraSession<F> {
    /// Id of the session.
    pub id: u32,
    /// Current iteration of the pattern generation cycle.
    pub iteration: u64,
    /// Buffers currently allocated for this session.
    pub buffers: Vec<Buffer<F>>,
    /// FIFO of queued buffers awaiting processing.
    pub queued_buffers: VecDeque<usize>,
    /// Is the session currently streaming?
    pub streaming: bool,
}

/// What a session holds.
#[verifier::ext_equal]
pub struct SessionView<F> {
    /// Id of the session.
    pub id: u32,
    /// Iteration of the next frame.
    pub iteration: u64,
    /// Buffers of the session.
    pub buffers: Seq<Buffer<F>>,
    /// Indices of the buffers that wait for a frame, the first to be filled first.
    pub queued: Seq<usize>,
    /// Is the session currently streaming?
    pub streaming: bool,
}

impl<F> View for EmulatedCameraSession<F> {
    type V = SessionView<F>;

    open spec fn view(&self) -> SessionView<F> {
        SessionView {
            id: self.id,
            iteration: self.iteration,
            buffers: self.buffers@,
            queued: self.queued_buffers@,
            streaming: self.streaming,
        }
    }
}

/// The buffer that the next frame goes to, and the iteration of that frame.
#[derive(Debug, Clone, Copy, PartialEq, Eq, Structural)]
pub struct FrameSlot {
    /// Index of the buffer.
    pub index: usize,
    /// Iteration of the frame.
    pub iteration: u64,
}

/// Sequence number of the frame of an iteration: the iteration modulo 2^32.
pub open spec fn frame_sequence(iteration: u64) -> u32 {
    (iteration % 0x1_0000_0000) as u32
}

/// The iteration after `iteration`, modulo 2^64.
pub open spec fn next_iteration(iteration: u64) -> u64 {
    ((iteration + 1) % 0x1_0000_0000_0000_0000) as u64
}

impl<F> SessionView<F> {
    /// A session that was just opened.
    pub open spec fn opened(id: u32) -> SessionView<F> {
        SessionView {
            id,
            iteration: 0,
            buffers: Seq::empty(),
            queued: Seq::empty(),
            streaming: false,
        }
    }

    /// What holds of every session: its buffers are proper, the queue names each of its buffers
    /// once and only such as wait for a frame, and only a session with buffers streams.
    pub open spec fn wf(self) -> bool {
        &&& self.buffers.len() <= MAX_BUFFERS
        &&& forall|i: int| 0 <= i < self.buffers.len() ==> (#[trigger] self.buffers[i]).wf(i)
        &&& forall|k: int|
            0 <= k < self.queued.len() ==> (#[trigger] self.queued[k]) < self.buffers.len()
                && self.buffers[self.queued[k] as int].state == BufferState::Incoming
        &&& self.queued.no_duplicates()
        &&& self.streaming ==> self.buffers.len() > 0
    }

    /// The session with every buffer new and nothing queued.
    pub open spec fn reset(self) -> SessionView<F> {
        SessionView {
            buffers: self.buffers.map_values(|b: Buffer<F>| b.in_state(BufferState::New)),
            queued: Seq::empty(),
            ..self
        }
    }

    /// The session after it stopped streaming.
    pub open spec fn streamed_off(self) -> SessionView<F> {
        SessionView { streaming: false, ..self.reset() }
    }

    /// Whether the buffer at `index` can be queued.
    pub open spec fn can_queue(self, index: int) -> bool {
        0 <= index < self.buffers.len() && self.buffers[index].state != BufferState::Incoming
    }

    /// The session after the buffer at `index` was queued.
    pub open spec fn with_queued(self, index: int) -> SessionView<F> {
        SessionView {
            buffers: self.buffers.update(
                index,
                self.buffers[index].in_state(BufferState::Incoming),
            ),
            queued: self.queued.push(index as usize),
            ..self
        }
    }

    /// The session after its first queued buffer was taken, if it streams and has one.
    pub open spec fn frame_begun(self) -> SessionView<F> {
        if self.streaming && self.queued.len() > 0 {
            SessionView { queued: self.queued.drop_first(), ..self }
        } else {
            self
        }
    }

    /// Where the next frame goes.
    pub open spec fn next_slot(self) -> Option<FrameSlot> {
        if self.streaming && self.queued.len() > 0 && self.queued[0] < self.buffers.len() {
            Some(FrameSlot { index: self.queued[0], iteration: self.iteration })
        } else {
            None
        }
    }

    /// The session after a frame was stored in the buffer at `index`.
    pub open spec fn frame_stored(self, index: int) -> SessionView<F> {
        SessionView {
            buffers: self.buffers.update(
                index,
                self.buffers[index].filled(frame_sequence(self.iteration)),
            ),
            iteration: next_iteration(self.iteration),
            ..self
        }
    }

    /// The event that hands out the buffer at `index` once the next frame is stored in it.
    pub open spec fn stored_event(self, index: int) -> DequeueBufferEvent {
        DequeueBufferEvent {
            session_id: self.id,
            buffer: self.buffers[index].filled(frame_sequence(self.iteration)).v4l2_buffer,
        }
    }

    /// Index of the first buffer that is mapped by `offset`, or the number of buffers.
    pub open spec fn index_of_offset(self, offset: u32) -> int {
        first_with_offset(self.buffers, offset)
    }

    /// Offsets of the buffers, in order.
    pub open spec fn offsets(self) -> Seq<u32> {
        self.buffers.map_values(|b: Buffer<F>| b.offset)
    }
}

/// Index of the first of `buffers` with this offset, or their number.
pub open spec fn first_with_offset<F>(buffers: Seq<Buffer<F>>, offset: u32) -> int
    decreases buffers.len(),
{
    if buffers.len() == 0 || buffers[0].offset == offset {
        0
    } else {
        1 + first_with_offset(buffers.drop_first(), offset)
    }
}

/// Everything before the first buffer with an offset has another one.
pub proof fn lemma_first_with_offset<F>(buffers: Seq<Buffer<F>>, offset: u32)
    ensures
        0 <= first_with_offset(buffers, offset) <= buffers.len(),
        forall|i: int|
            0 <= i < first_with_offset(buffers, offset) ==> (#[trigger] buffers[i]).offset
                != offset,
        first_with_offset(buffers, offset) < buffers.len() ==> buffers[first_with_offset(
            buffers,
            offset,
        )].offset == offset,
    decreases buffers.len(),
{
    if buffers.len() > 0 && buffers[0].offset != offset {
        lemma_first_with_offset(buffers.drop_first(), offset);
        assert forall|i: int| 0 <= i < first_with_offset(buffers, offset) implies (
        #[trigger] buffers[i]).offset != offset by {
            if i > 0 {
                assert(buffers.drop_first()[i - 1] == buffers[i]);
            }
        }
    }
}

/// Resetting a session keeps what holds of every session.
pub proof fn lemma_reset_keeps_wf<F>(session: SessionView<F>)
    requires
        session.wf(),
    ensures
        session.reset().wf(),
        session.streamed_off().wf(),
{
    assert forall|i: int| 0 <= i < session.buffers.len() implies (
    #[trigger] session.reset().buffers[i]).wf(i) by {
        lemma_state_change_keeps_wf(session.buffers[i], i, 0);
    }
}

/// Queueing a buffer keeps what holds of every session.
pub proof fn lemma_queueing_keeps_wf<F>(session: SessionView<F>, index: int)
    requires
        session.wf(),
        session.can_queue(index),
    ensures
        session.with_queued(index).wf(),
{
    lemma_state_change_keeps_wf(session.buffers[index], index, 0);
    let after = session.with_queued(index);
    assert forall|k: int| 0 <= k < after.queued.len() implies (#[trigger] after.queued[k])
        < after.buffers.len() && after.buffers[after.queued[k] as int].state
        == BufferState::Incoming by {
        if k < session.queued.len() {
            assert(after.queued[k] == session.queued[k]);
        }
    }
    assert forall|j: int, k: int|
        0 <= j < after.queued.len() && 0 <= k < after.queued.len() && j != k implies
        after.queued[j] != after.queued[k] by {
        if j < session.queued.len() {
            assert(after.queued[j] == session.queued[j]);
        }
        if k < session.queued.len() {
            assert(after.queued[k] == session.queued[k]);
        }
    }
}

/// Taking a buffer off the queue keeps what holds of every session, and the buffer is then
/// queued no more.
pub proof fn lemma_beginning_frame_keeps_wf<F>(session: SessionView<F>)
    requires
        session.wf(),
    ensures
        session.frame_begun().wf(),
        session.next_slot() is Some <==> session.streaming && session.queued.len() > 0,
        session.next_slot() matches Some(slot) ==> !session.frame_begun().queued.contains(
            slot.index,
        ) && session.buffers[slot.index as int].state == BufferState::Incoming,
{
    let after = session.frame_begun();
    if session.streaming && session.queued.len() > 0 {
        assert(forall|k: int|
            0 <= k < after.queued.len() ==> after.queued[k] == session.queued[k + 1]);
        assert(session.queued[0] < session.buffers.len());
    }
}

/// Storing a frame in a buffer that is not queued keeps what holds of every session.
pub proof fn lemma_storing_frame_keeps_wf<F>(session: SessionView<F>, index: int)
    requires
        session.wf(),
        0 <= index < session.buffers.len(),
        !session.queued.contains(index as usize),
    ensures
        session.frame_stored(index).wf(),
{
    lemma_state_change_keeps_wf(
        session.buffers[index],
        index,
        frame_sequence(session.iteration),
    );
    let after = session.frame_stored(index);
    assert forall|k: int| 0 <= k < after.queued.len() implies (#[trigger] after.queued[k])
        < after.buffers.len() && after.buffers[after.queued[k] as int].state
        == BufferState::Incoming by {
        assert(session.queued[k] != index);
    }
}

impl<F> EmulatedCameraSession<F> {
    /// Opens a session without buffers.
    pub fn open(id: u32) -> (session: Self)
        ensures
            session@ == SessionView::<F>::opened(id),
            session@.wf(),
    {
        EmulatedCameraSession {
            id,
            iteration: 0,
            buffers: Vec::new(),
            queued_buffers: VecDeque::new(),
            streaming: false,
        }
    }

    /// Forgets what is queued and makes every buffer new.
    pub fn reset(&mut self)
        ensures
            final(self)@ == old(self)@.reset(),
            old(self)@.wf() ==> final(self)@.wf(),
    {
        let ghost before = self@;
        self.queued_buffers.clear();
        let mut i: usize = 0;
        while i < self.buffers.len()
            invariant
                i <= self.buffers@.len() == before.buffers.len(),
                self.id == before.id,
                self.iteration == before.iteration,
                self.streaming == before.streaming,
                self.queued_buffers@ == Seq::<usize>::empty(),
                forall|j: int|
                    0 <= j < i ==> #[trigger] self.buffers@[j] == before.buffers[j].in_state(
                        BufferState::New,
                    ),
                forall|j: int|
                    i <= j < before.buffers.len() ==> #[trigger] self.buffers@[j]
                        == before.buffers[j],
            decreases self.buffers@.len() - i,
        {
            self.buffers[i].set_state(BufferState::New);
            i += 1;
        }
        assert(self@ =~= before.reset());
        proof {
            if before.wf() {
                lemma_reset_keeps_wf(before);
            }
        }
    }

    /// Offsets by which the buffers are mapped.
    pub fn buffer_offsets(&self) -> (offsets: Vec<u32>)
        ensures
            offsets@ == self@.offsets(),
    {
        let mut offsets: Vec<u32> = Vec::new();
        let mut i: usize = 0;
        while i < self.buffers.len()
            invariant
                i <= self.buffers@.len(),
                offsets@ == self@.offsets().take(i as int),
            decreases self.buffers@.len() - i,
        {
            offsets.push(self.buffers[i].offset);
            i += 1;
            assert(self@.offsets().take(i as int) =~= self@.offsets().take(i - 1).push(
                self@.offsets()[i - 1],
            ));
        }
        assert(self@.offsets().take(i as int) =~= self@.offsets());
        offsets
    }

    /// Finds the first buffer that is mapped by `offset`.
    pub fn find_buffer(&self, offset: u32) -> (found: Option<usize>)
        ensures
            match found {
                Some(index) => index == self@.index_of_offset(offset) && index
                    < self@.buffers.len(),
                None => self@.index_of_offset(offset) == self@.buffers.len(),
            },
    {
        proof {
            lemma_first_with_offset(self@.buffers, offset);
        }
        let mut i: usize = 0;
        while i < self.buffers.len()
            invariant
                i <= self.buffers@.len(),
                0 <= self@.index_of_offset(offset) <= self.buffers@.len(),
                self@.index_of_offset(offset) < self.buffers@.len()
                    ==> self.buffers@[self@.index_of_offset(offset)].offset == offset,
                forall|j: int|
                    0 <= j < self@.index_of_offset(offset) ==> (
                    #[trigger] self.buffers@[j]).offset != offset,
                i <= self@.index_of_offset(offset),
            decreases self.buffers@.len() - i,
        {
            if self.buffers[i].offset == offset {
                return Some(i);
            }
            i += 1;
        }
        None
    }

    /// Takes the first queued buffer for the next frame, if the session streams.
    ///
    /// The caller stores the frame in the buffer and reports to [`Self::finish_frame`].
    pub fn begin_frame(&mut self) -> (slot: Option<FrameSlot>)
        ensures
            slot == old(self)@.next_slot(),
            final(self)@ == old(self)@.frame_begun(),
            old(self)@.wf() ==> final(self)@.wf(),
            old(self)@.wf() ==> (slot is Some <==> old(self)@.streaming && old(self)@.queued.len()
                > 0),
            old(self)@.wf() ==> (slot matches Some(s) ==> !final(self)@.queued.contains(s.index)),
    {
        let ghost before = self@;
        proof {
            if before.wf() {
                lemma_beginning_frame_keeps_wf(before);
            }
        }
        if !self.streaming {
            return None;
        }
        match self.queued_buffers.pop_front() {
            None => {
                assert(self@ =~= before);
                None
            },
            Some(index) => {
                assert(self@ =~= before.frame_begun());
                if index < self.buffers.len() {
                    Some(FrameSlot { index, iteration: self.iteration })
                } else {
                    None
                }
            },
        }
    }

    /// Concludes the frame that [`Self::begin_frame`] gave the buffer `index` for.
    ///
    /// If the frame was stored, the buffer is ready for dequeue, and the event that tells the
    /// guest is returned. If it could not be stored, nothing changes: the buffer is not queued
    /// any more and still counts as waiting for a frame.
    pub fn finish_frame(&mut self, index: usize, stored: bool) -> (event: Option<
        DequeueBufferEvent,
    >)
        ensures
            stored && index < old(self)@.buffers.len() ==> {
                &&& event == Some(old(self)@.stored_event(index as int))
                &&& final(self)@ == old(self)@.frame_stored(index as int)
            },
            !stored || index >= old(self)@.buffers.len() ==> {
                &&& event == None::<DequeueBufferEvent>
                &&& final(self)@ == old(self)@
            },
            old(self)@.wf() && !old(self)@.queued.contains(index) ==> final(self)@.wf(),
    {
        let ghost before = self@;
        if !stored || index >= self.buffers.len() {
            return None;
        }
        proof {
            if before.wf() && !before.queued.contains(index) {
                lemma_storing_frame_keeps_wf(before, index as int);
            }
            let iteration = self.iteration;
            assert(iteration as u32 == iteration % 0x1_0000_0000) by (bit_vector);
        }
        #[verifier::truncate]
        let sequence: u32 = self.iteration as u32;
        self.buffers[index].v4l2_buffer.bytesused = BUFFER_SIZE;
        self.buffers[index].set_state(BufferState::Outgoing { sequence });
        let buffer = self.buffers[index].v4l2_buffer;
        self.iteration = self.iteration.wrapping_add(1);
        assert(self@ =~= before.frame_stored(index as int));
        Some(DequeueBufferEvent { session_id: self.id, buffer })
    }
}

/// A session after its first queued buffer was taken and filled.
pub open spec fn delivered<F>(session: SessionView<F>) -> SessionView<F> {
    session.frame_begun().frame_stored(session.queued[0] as int)
}

/// A session after `n` frames were delivered.
pub open spec fn delivered_times<F>(session: SessionView<F>, n: nat) -> SessionView<F>
    decreases n,
{
    if n == 0 {
        session
    } else {
        delivered(delivered_times(session, (n - 1) as nat))
    }
}

/// The event of the frame that is delivered next.
pub open spec fn delivery_event<F>(session: SessionView<F>) -> DequeueBufferEvent {
    session.frame_begun().stored_event(session.queued[0] as int)
}

/// Counting iterations modulo 2^64 and sequence numbers modulo 2^32 agrees with counting from
/// the start.
proof fn lemma_counting(start: u64, n: nat, iteration: u64)
    requires
        iteration == (start + n) % 0x1_0000_0000_0000_0000,
    ensures
        next_iteration(iteration) == (start + n + 1) % 0x1_0000_0000_0000_0000,
        frame_sequence(iteration) == (start + n) % 0x1_0000_0000,
{
    let x: int = start + n;
    vstd::arithmetic::div_mod::lemma_add_mod_noop(x, 1, 0x1_0000_0000_0000_0000);
    vstd::arithmetic::div_mod::lemma_mod_mod(x, 0x1_0000_0000, 0x1_0000_0000);
}

/// What is left of a session after `n` frames were delivered.
proof fn lemma_after_deliveries<F>(session: SessionView<F>, n: nat)
    requires
        session.wf(),
        session.streaming,
        n <= session.queued.len(),
    ensures
        ({
            let after = delivered_times(session, n);
            &&& after.wf()
            &&& after.streaming
            &&& after.id == session.id
            &&& after.queued == session.queued.skip(n as int)
            &&& after.iteration == (session.iteration + n) % 0x1_0000_0000_0000_0000
        }),
    decreases n,
{
    if n > 0 {
        let m = (n - 1) as nat;
        lemma_after_deliveries(session, m);
        let before = delivered_times(session, m);
        lemma_beginning_frame_keeps_wf(before);
        assert(before.queued[0] == session.queued[m as int]);
        lemma_storing_frame_keeps_wf(before.frame_begun(), before.queued[0] as int);
        assert(before.queued.drop_first() =~= session.queued.skip(n as int));
        lemma_counting(session.iteration, m, before.iteration);
    } else {
        assert(session.queued.skip(0) =~= session.queued);
    }
}

/// Frames go to the queued buffers in the order in which they were queued: the frame delivered
/// after `n` others goes to the buffer that was queued after `n` others. The frames are numbered
/// one after the other: iterations modulo 2^64, and the sequence numbers told to the guest modulo
/// 2^32.
pub proof fn lemma_frames_follow_the_queue<F>(session: SessionView<F>, n: nat)
    requires
        session.wf(),
        session.streaming,
        n < session.queued.len(),
    ensures
        ({
            let before = delivered_times(session, n);
            let event = delivery_event(before);
            &&& before.wf()
            &&& before.streaming
            &&& before.queued == session.queued.skip(n as int)
            &&& before.iteration == (session.iteration + n) % 0x1_0000_0000_0000_0000
            &&& before.next_slot() == Some(
                FrameSlot { index: session.queued[n as int], iteration: before.iteration },
            )
            &&& event.session_id == session.id
            &&& event.buffer.index == session.queued[n as int]
            &&& event.buffer.sequence == (session.iteration + n) % 0x1_0000_0000
            &&& event.buffer.bytesused == BUFFER_SIZE
        }),
{
    lemma_after_deliveries(session, n);
    let before = delivered_times(session, n);
    lemma_counting(session.iteration, n, before.iteration);
    assert(before.queued[0] == session.queued[n as int]);
    assert(before.queued[0] < before.buffers.len());
    assert(before.buffers[before.queued[0] as int].wf(before.queued[0] as int));
}

/// A session after buffers were queued one after the other.
pub open spec fn with_all_queued<F>(session: SessionView<F>, indices: Seq<int>) -> SessionView<F>
    decreases indices.len(),
{
    if indices.len() == 0 {
        session
    } else {
        with_all_queued(session, indices.drop_last()).with_queued(indices.last())
    }
}

/// Queueing different buffers that are not waiting for a frame succeeds for each of them, and
/// puts them behind those that are queued already, in order.
pub proof fn lemma_buffers_queue_up<F>(session: SessionView<F>, indices: Seq<int>)
    requires
        session.wf(),
        indices.no_duplicates(),
        forall|k: int| 0 <= k < indices.len() ==> session.can_queue(#[trigger] indices[k]),
    ensures
        with_all_queued(session, indices).wf(),
        with_all_queued(session, indices).queued == session.queued + indices.map_values(
            |i: int| i as usize,
        ),
        with_all_queued(session, indices).streaming == session.streaming,
        with_all_queued(session, indices).buffers.len() == session.buffers.len(),
        forall|i: int|
            #![trigger with_all_queued(session, indices).buffers[i]]
            0 <= i < session.buffers.len() && !indices.contains(i) ==> with_all_queued(
                session,
                indices,
            ).buffers[i] == session.buffers[i],
    decreases indices.len(),
{
    if indices.len() == 0 {
        assert(session.queued + indices.map_values(|i: int| i as usize) =~= session.queued);
    } else {
        let prefix = indices.drop_last();
        let last = indices.last();
        assert forall|k: int| 0 <= k < prefix.len() implies session.can_queue(
            #[trigger] prefix[k],
        ) by {
            assert(prefix[k] == indices[k]);
        }
        lemma_buffers_queue_up(session, prefix);
        let before = with_all_queued(session, prefix);
        assert(session.can_queue(indices[indices.len() - 1]));
        assert(!prefix.contains(last));
        assert(before.buffers[last] == session.buffers[last]);
        lemma_queueing_keeps_wf(before, last);
        assert((session.queued + prefix.map_values(|i: int| i as usize)).push(last as usize)
            =~= session.queued + indices.map_values(|i: int| i as usize));
        let after = with_all_queued(session, indices);
        assert forall|i: int|
            #![trigger after.buffers[i]]
            0 <= i < session.buffers.len() && !indices.contains(i) implies after.buffers[i]
            == session.buffers[i] by {
            assert(indices[indices.len() - 1] == last);
            assert(i != last);
            if prefix.contains(i) {
                let k = choose|k: int| 0 <= k < prefix.len() && prefix[k] == i;
                assert(indices[k] == i);
            }
            assert(before.buffers[i] == session.buffers[i]);
        }
    }
}

/// A queued buffer cannot be queued again until it is filled or the session is reset.
pub proof fn lemma_no_double_queueing<F>(session: SessionView<F>, index: int)
    requires
        session.wf(),
        session.can_queue(index),
    ensures
        !session.with_queued(index).can_queue(index),
        session.with_queued(index).frame_stored(index).can_queue(index),
        session.with_queued(index).reset().can_queue(index),
{
}

/// A buffer whose frame could not be stored is neither queued nor can it be queued, until the
/// session is reset.
pub proof fn lemma_failed_frame_holds_its_buffer<F>(session: SessionView<F>)
    requires
        session.wf(),
        session.next_slot() is Some,
    ensures
        ({
            let index = session.next_slot()->Some_0.index;
            let after = session.frame_begun();
            &&& !after.queued.contains(index)
            &&& !after.can_queue(index as int)
            &&& after.reset().can_queue(index as int)
        }),
{
    lemma_beginning_frame_keeps_wf(session);
}

/// After it stopped streaming a session has no frame to deliver, not even once it streams again,
/// until a buffer is queued; and every buffer can be queued.
pub proof fn lemma_streaming_starts_afresh<F>(session: SessionView<F>, index: int)
    requires
        0 <= index < session.buffers.len(),
    ensures
        session.streamed_off().next_slot() is None,
        (SessionView { streaming: true, ..session.streamed_off() }).next_slot() is None,
        session.streamed_off().can_queue(index),
        session.streamed_off().streamed_off() == session.streamed_off(),
{
    let once = session.streamed_off();
    assert forall|i: int| 0 <= i < session.buffers.len() implies once.buffers[i].in_state(
        BufferState::New,
    ) == once.buffers[i] by {
        let flags = session.buffers[i].v4l2_buffer.flags;
        assert((flags & 0x0091_7d7fu32 & !2u32) & 0x0091_7d7fu32 & !2u32 == flags & 0x0091_7d7fu32
            & !2u32) by (bit_vector);
    }
    assert(once.streamed_off() =~= once);
}

} // verus!
