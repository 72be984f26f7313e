//! How buffers are queued, filled and handed out.

use vstd::prelude::*;

use crate::buffer::BufferState;
use crate::camera::EmulatedCamera;
use crate::errno::IoctlResult;
use crate::laws::buffers::{
    is_made_new, is_made_ready, is_made_to_wait, keeps_place, lemma_flag_bits,
};
use crate::session::{EmulatedCameraSession, FrameSlot};
use crate::v4l2::{DequeueBufferEvent, QueueType, V4l2Buffer};

verus! {

/// A session starts idle: with its id, without a buffer, nothing queued, and no frame delivered.
pub proof fn lemma_session_starts_idle<F>(id: u32, session: EmulatedCameraSession<F>)
    requires
        call_ensures(EmulatedCameraSession::<F>::open, (id,), session),
    ensures
        session.id == id,
        session.iteration == 0,
        session.buffers@.len() == 0,
        session.queued_buffers@.len() == 0,
        !session.streaming,
{
    assert(session@.id == id);
}

/// Resetting a session empties its queue and makes each of its buffers new where it is; nothing
/// else changes.
pub proof fn lemma_reset_makes_buffers_new<F>(session: &mut EmulatedCameraSession<F>)
    requires
        call_ensures(EmulatedCameraSession::<F>::reset, (session,), ()),
    ensures
        final(session).id == old(session).id,
        final(session).iteration == old(session).iteration,
        final(session).streaming == old(session).streaming,
        final(session).queued_buffers@.len() == 0,
        final(session).buffers@.len() == old(session).buffers@.len(),
        forall|i: int|
            0 <= i < old(session).buffers@.len() ==> is_made_new(
                old(session).buffers@[i],
                #[trigger] final(session).buffers@[i],
            ),
{
    assert(final(session)@ == old(session)@.reset());
    assert forall|i: int| 0 <= i < old(session).buffers@.len() implies is_made_new(
        old(session).buffers@[i],
        #[trigger] final(session).buffers@[i],
    ) by {
        lemma_flag_bits(old(session).buffers@[i].v4l2_buffer.flags);
        assert(final(session)@.buffers[i] == old(session)@.buffers[i].in_state(BufferState::New));
    }
}

/// Streaming off never fails on the capture queue: it stops the session, empties its queue and
/// makes each of its buffers new where it is, and leaves the count of frames alone. Every other
/// queue is refused with `EINVAL`, and nothing changes.
pub proof fn lemma_streamoff_stops<Q, M, P, F>(
    camera: &EmulatedCamera<Q, M, P>,
    session: &mut EmulatedCameraSession<F>,
    queue: QueueType,
    r: IoctlResult<()>,
)
    requires
        call_ensures(EmulatedCamera::<Q, M, P>::streamoff::<F>, (camera, session, queue), r),
    ensures
        r == (if queue == QueueType::VideoCapture {
            Ok::<(), i32>(())
        } else {
            Err::<(), i32>(22)
        }),
        final(session).id == old(session).id,
        final(session).iteration == old(session).iteration,
        final(session).buffers@.len() == old(session).buffers@.len(),
        r is Ok ==> {
            &&& !final(session).streaming
            &&& final(session).queued_buffers@.len() == 0
            &&& forall|i: int|
                0 <= i < old(session).buffers@.len() ==> is_made_new(
                    old(session).buffers@[i],
                    #[trigger] final(session).buffers@[i],
                )
        },
        r is Err ==> {
            &&& final(session).streaming == old(session).streaming
            &&& final(session).queued_buffers@ == old(session).queued_buffers@
            &&& final(session).buffers@ == old(session).buffers@
        },
{
    if r is Ok {
        assert(final(session)@ == old(session)@.streamed_off());
        assert forall|i: int| 0 <= i < old(session).buffers@.len() implies is_made_new(
            old(session).buffers@[i],
            #[trigger] final(session).buffers@[i],
        ) by {
            lemma_flag_bits(old(session).buffers@[i].v4l2_buffer.flags);
            assert(final(session)@.buffers[i] == old(session)@.buffers[i].in_state(
                BufferState::New,
            ));
        }
    } else {
        assert(final(session)@ == old(session)@);
    }
}

/// Streaming on changes nothing but that the session streams. It is refused with `EINVAL` if and
/// only if another queue than the capture queue is named or the session has no buffer; one is
/// enough.
pub proof fn lemma_streamon_starts<Q, M, P, F>(
    camera: &EmulatedCamera<Q, M, P>,
    session: &mut EmulatedCameraSession<F>,
    queue: QueueType,
    r: IoctlResult<()>,
)
    requires
        call_ensures(EmulatedCamera::<Q, M, P>::streamon::<F>, (camera, session, queue), r),
    ensures
        r == (if queue == QueueType::VideoCapture && old(session).buffers@.len() >= 1 {
            Ok::<(), i32>(())
        } else {
            Err::<(), i32>(22)
        }),
        final(session).streaming == (old(session).streaming || r is Ok),
        final(session).id == old(session).id,
        final(session).iteration == old(session).iteration,
        final(session).queued_buffers@ == old(session).queued_buffers@,
        final(session).buffers@ == old(session).buffers@,
{
    assert(final(session)@.queued == final(session).queued_buffers@);
    assert(old(session)@.queued == old(session).queued_buffers@);
}

/// Queueing a buffer puts it behind all that are queued, makes it wait for a frame where it is, and
/// answers with what the guest is told of it from then on. No other buffer changes. It is refused
/// with `EINVAL`, and nothing changes, if and only if there is no buffer with that index or it
/// waits for a frame already; what else the guest says of the buffer does not matter.
pub proof fn lemma_qbuf_queues<Q, M, P, F>(
    camera: &EmulatedCamera<Q, M, P>,
    session: &mut EmulatedCameraSession<F>,
    buffer: V4l2Buffer,
    r: IoctlResult<V4l2Buffer>,
)
    requires
        call_ensures(EmulatedCamera::<Q, M, P>::qbuf::<F>, (camera, session, buffer), r),
    ensures
        r is Ok <==> buffer.index < old(session).buffers@.len()
            && old(session).buffers@[buffer.index as int].state != BufferState::Incoming,
        r is Err ==> r->Err_0 == 22,
        r is Err ==> {
            &&& final(session).queued_buffers@ == old(session).queued_buffers@
            &&& final(session).buffers@ == old(session).buffers@
        },
        r is Ok ==> {
            &&& final(session).queued_buffers@ == old(session).queued_buffers@
                + seq![buffer.index as usize]
            &&& is_made_to_wait(
                old(session).buffers@[buffer.index as int],
                final(session).buffers@[buffer.index as int],
            )
            &&& r->Ok_0 == final(session).buffers@[buffer.index as int].v4l2_buffer
        },
        final(session).id == old(session).id,
        final(session).iteration == old(session).iteration,
        final(session).streaming == old(session).streaming,
        final(session).buffers@.len() == old(session).buffers@.len(),
        forall|i: int|
            0 <= i < old(session).buffers@.len() && i != buffer.index
                ==> #[trigger] final(session).buffers@[i] == old(session).buffers@[i],
{
    let index = buffer.index as int;
    assert(final(session)@.queued == final(session).queued_buffers@);
    assert(old(session)@.queued == old(session).queued_buffers@);
    if r is Ok {
        lemma_flag_bits(old(session).buffers@[index].v4l2_buffer.flags);
        assert(final(session)@ == old(session)@.with_queued(index));
        assert(final(session).queued_buffers@ =~= old(session).queued_buffers@
            + seq![buffer.index as usize]);
        assert(final(session)@.buffers[index] == old(session)@.buffers[index].in_state(
            BufferState::Incoming,
        ));
    }
}

/// A frame begins only while the session streams and something is queued. It takes the head of the
/// queue and nothing else, and goes to that buffer, in the current iteration, if the session has
/// it.
pub proof fn lemma_frame_begins_at_the_head<F>(
    session: &mut EmulatedCameraSession<F>,
    slot: Option<FrameSlot>,
)
    requires
        call_ensures(EmulatedCameraSession::<F>::begin_frame, (session,), slot),
    ensures
        final(session).id == old(session).id,
        final(session).iteration == old(session).iteration,
        final(session).streaming == old(session).streaming,
        final(session).buffers@ == old(session).buffers@,
        old(session).streaming && old(session).queued_buffers@.len() > 0 ==> {
            &&& seq![old(session).queued_buffers@[0]] + final(session).queued_buffers@
                == old(session).queued_buffers@
            &&& slot is Some <==> old(session).queued_buffers@[0] < old(session).buffers@.len()
        },
        !(old(session).streaming && old(session).queued_buffers@.len() > 0) ==> {
            &&& final(session).queued_buffers@ == old(session).queued_buffers@
            &&& slot is None
        },
        slot matches Some(s) ==> s.index == old(session).queued_buffers@[0]
            && s.iteration == old(session).iteration,
{
    assert(final(session)@.queued == final(session).queued_buffers@);
    assert(old(session)@.queued == old(session).queued_buffers@);
    if old(session).streaming && old(session).queued_buffers@.len() > 0 {
        assert(seq![old(session).queued_buffers@[0]] + final(session).queued_buffers@
            =~= old(session).queued_buffers@);
    }
}

/// A frame that was stored makes its buffer ready where it is, with 460800 bytes, the iteration
/// modulo 2^32 as sequence number and the time that goes with it; the event tells the session of
/// exactly that buffer, and the iteration goes up by one. No other buffer changes, and neither do
/// the queue and whether the session streams. A frame that was not stored, or one for a buffer that
/// the session does not have, changes nothing and gives no event.
pub proof fn lemma_stored_frame_is_handed_out<F>(
    session: &mut EmulatedCameraSession<F>,
    index: usize,
    stored: bool,
    event: Option<DequeueBufferEvent>,
)
    requires
        call_ensures(EmulatedCameraSession::<F>::finish_frame, (session, index, stored), event),
    ensures
        event is Some <==> stored && index < old(session).buffers@.len(),
        final(session).id == old(session).id,
        final(session).streaming == old(session).streaming,
        final(session).queued_buffers@ == old(session).queued_buffers@,
        final(session).buffers@.len() == old(session).buffers@.len(),
        forall|i: int|
            0 <= i < old(session).buffers@.len() && i != index
                ==> #[trigger] final(session).buffers@[i] == old(session).buffers@[i],
        event is None ==> {
            &&& final(session).iteration == old(session).iteration
            &&& final(session).buffers@ == old(session).buffers@
        },
        event matches Some(e) ==> {
            let after = final(session).buffers@[index as int];
            let sequence = e.buffer.sequence;
            &&& final(session).iteration == (if old(session).iteration == u64::MAX {
                0
            } else {
                old(session).iteration + 1
            })
            &&& (old(session).iteration - sequence) % 0x1_0000_0000 == 0
            &&& is_made_ready(old(session).buffers@[index as int], after, sequence)
            &&& after.v4l2_buffer.bytesused == 460_800
            &&& e.buffer == after.v4l2_buffer
            &&& e.session_id == old(session).id
        },
{
    assert(final(session)@.queued == final(session).queued_buffers@);
    assert(old(session)@.queued == old(session).queued_buffers@);
    if event is Some {
        lemma_flag_bits(old(session).buffers@[index as int].v4l2_buffer.flags);
        assert(final(session)@ == old(session)@.frame_stored(index as int));
    }
}

/// Delivering a frame, from taking its buffer to handing it out: the buffer that was first in the
/// queue leaves it, and is told of in the event by the index, offset and size that it had before.
/// The offsets by which the buffers of the session are mapped are the same before and after.
pub proof fn lemma_delivery_keeps_places<F>(
    before: &EmulatedCameraSession<F>,
    offsets_before: Vec<u32>,
    begun: &mut EmulatedCameraSession<F>,
    slot: FrameSlot,
    finished: &mut EmulatedCameraSession<F>,
    stored: bool,
    event: Option<DequeueBufferEvent>,
    offsets_after: Vec<u32>,
)
    requires
        *old(begun) == *before,
        *old(finished) == *final(begun),
        call_ensures(EmulatedCameraSession::<F>::buffer_offsets, (before,), offsets_before),
        call_ensures(EmulatedCameraSession::<F>::begin_frame, (begun,), Some(slot)),
        call_ensures(
            EmulatedCameraSession::<F>::finish_frame,
            (finished, slot.index, stored),
            event,
        ),
        call_ensures(
            EmulatedCameraSession::<F>::buffer_offsets,
            (final(finished),),
            offsets_after,
        ),
    ensures
        event is Some <==> stored,
        offsets_after@ == offsets_before@,
        event matches Some(e) ==> {
            let told = before.buffers@[before.queued_buffers@[0] as int].v4l2_buffer;
            &&& e.buffer.index == told.index
            &&& e.buffer.mem_offset == told.mem_offset
            &&& e.buffer.length == told.length
            &&& e.buffer.sequence == slot.iteration % 0x1_0000_0000
        },
{
    lemma_frame_begins_at_the_head(begun, Some(slot));
    lemma_stored_frame_is_handed_out(finished, slot.index, stored, event);
    lemma_offsets_are_those_of_the_buffers(before, offsets_before);
    lemma_offsets_are_those_of_the_buffers(final(finished), offsets_after);
    assert(offsets_after@ =~= offsets_before@);
}

/// The offsets of a session are those of its buffers, one for each and in order.
pub proof fn lemma_offsets_are_those_of_the_buffers<F>(
    session: &EmulatedCameraSession<F>,
    offsets: Vec<u32>,
)
    requires
        call_ensures(EmulatedCameraSession::<F>::buffer_offsets, (session,), offsets),
    ensures
        offsets@.len() == session.buffers@.len(),
        forall|i: int|
            0 <= i < session.buffers@.len() ==> #[trigger] offsets@[i]
                == session.buffers@[i].offset,
{
    assert(offsets@ == session@.offsets());
}

/// A buffer is found by its offset: the first one that has it, and none if and only if none has it.
pub proof fn lemma_first_buffer_is_found<F>(
    session: &EmulatedCameraSession<F>,
    offset: u32,
    found: Option<usize>,
)
    requires
        call_ensures(EmulatedCameraSession::<F>::find_buffer, (session, offset), found),
    ensures
        match found {
            Some(index) => {
                &&& index < session.buffers@.len()
                &&& session.buffers@[index as int].offset == offset
                &&& forall|i: int|
                    0 <= i < index ==> (#[trigger] session.buffers@[i]).offset != offset
            },
            None => forall|i: int|
                0 <= i < session.buffers@.len() ==> (#[trigger] session.buffers@[i]).offset
                    != offset,
        },
{
    crate::session::lemma_first_with_offset(session@.buffers, offset);
}

/// Queueing, streaming on and off and resetting leave every buffer where it is.
pub proof fn lemma_requests_keep_places<Q, M, P, F>(
    camera: &EmulatedCamera<Q, M, P>,
    session: &mut EmulatedCameraSession<F>,
    queue: QueueType,
    buffer: V4l2Buffer,
    r: IoctlResult<()>,
    queued: IoctlResult<V4l2Buffer>,
    i: int,
)
    requires
        ({
            ||| call_ensures(
                EmulatedCamera::<Q, M, P>::qbuf::<F>,
                (camera, session, buffer),
                queued,
            )
            ||| call_ensures(EmulatedCamera::<Q, M, P>::streamon::<F>, (camera, session, queue), r)
            ||| call_ensures(EmulatedCamera::<Q, M, P>::streamoff::<F>, (camera, session, queue), r)
            ||| call_ensures(EmulatedCameraSession::<F>::reset, (session,), ())
        }),
        0 <= i < old(session).buffers@.len(),
    ensures
        final(session).buffers@.len() == old(session).buffers@.len(),
        keeps_place(old(session).buffers@[i], final(session).buffers@[i]),
{
    if call_ensures(EmulatedCamera::<Q, M, P>::qbuf::<F>, (camera, session, buffer), queued) {
        lemma_qbuf_queues(camera, session, buffer, queued);
    } else if call_ensures(
        EmulatedCamera::<Q, M, P>::streamon::<F>,
        (camera, session, queue),
        r,
    ) {
        lemma_streamon_starts(camera, session, queue, r);
    } else if call_ensures(
        EmulatedCamera::<Q, M, P>::streamoff::<F>,
        (camera, session, queue),
        r,
    ) {
        lemma_streamoff_stops(camera, session, queue, r);
    } else {
        lemma_reset_makes_buffers_new(session);
    }
}

/// A buffer that was queued cannot be queued again at once, and the second attempt changes nothing.
pub proof fn lemma_no_buffer_is_queued_twice<Q, M, P, F>(
    camera: &EmulatedCamera<Q, M, P>,
    first: &mut EmulatedCameraSession<F>,
    buffer: V4l2Buffer,
    queued: V4l2Buffer,
    second: &mut EmulatedCameraSession<F>,
    again: V4l2Buffer,
    r: IoctlResult<V4l2Buffer>,
)
    requires
        *old(second) == *final(first),
        again.index == buffer.index,
        call_ensures(EmulatedCamera::<Q, M, P>::qbuf::<F>, (camera, first, buffer), Ok(queued)),
        call_ensures(EmulatedCamera::<Q, M, P>::qbuf::<F>, (camera, second, again), r),
    ensures
        r == Err::<V4l2Buffer, i32>(22),
        final(second).queued_buffers@ == old(second).queued_buffers@,
{
    lemma_qbuf_queues(camera, first, buffer, Ok(queued));
    lemma_qbuf_queues(camera, second, again, r);
}

/// What the guest was told of a buffer, by an event or when it queued the buffer, is what it is
/// told when it asks.
pub proof fn lemma_querybuf_agrees<Q, M, P, F>(
    camera: &EmulatedCamera<Q, M, P>,
    session: &EmulatedCameraSession<F>,
    queue: QueueType,
    index: u32,
    r: IoctlResult<V4l2Buffer>,
)
    requires
        call_ensures(EmulatedCamera::<Q, M, P>::querybuf::<F>, (camera, session, queue, index), r),
    ensures
        r is Ok <==> queue == QueueType::VideoCapture && index < session.buffers@.len(),
        r is Ok ==> r->Ok_0 == session.buffers@[index as int].v4l2_buffer,
        r is Err ==> r->Err_0 == 22,
{
}

} // verus!
