//! How sessions get, map and lose their buffers.

use vstd::prelude::*;

use crate::buffer::BufferState;
use crate::camera::{
    lemma_allocation_failure, AllocationError, BufferRequest, EmulatedCamera, MappingRequest,
};
use crate::errno::IoctlResult;
use crate::laws::buffers::{is_made_new, lemma_flag_bits};
use crate::laws::delivery::{lemma_qbuf_queues, lemma_querybuf_agrees, lemma_streamoff_stops};
use crate::lens::LensFacing;
use crate::reader::FrameReader;
use crate::session::EmulatedCameraSession;
use crate::v4l2::{MemoryType, QueueType, RequestBuffers, V4l2Buffer};

verus! {

/// A camera starts with what it was given and without an active session.
pub proof fn lemma_camera_starts_free<Q, M, P>(
    evt_queue: Q,
    mmap_manager: M,
    lens_facing: LensFacing,
    camera_pipe: Option<P>,
    camera: EmulatedCamera<Q, M, P>,
)
    requires
        call_ensures(
            EmulatedCamera::<Q, M, P>::new,
            (evt_queue, mmap_manager, lens_facing, camera_pipe),
            camera,
        ),
    ensures
        camera.evt_queue == evt_queue,
        camera.mmap_manager == mmap_manager,
        camera.active_session is None,
        camera.lens_facing == lens_facing,
        camera.camera_pipe == camera_pipe,
{
}

/// A session can always be opened. It starts idle, and its loop reads a pipe if and only if the
/// camera has one, which is not open yet.
pub proof fn lemma_session_can_be_opened<Q, M, P, F>(
    camera: &EmulatedCamera<Q, M, P>,
    id: u32,
    r: IoctlResult<(EmulatedCameraSession<F>, FrameReader)>,
)
    requires
        call_ensures(EmulatedCamera::<Q, M, P>::new_session::<F>, (camera, id), r),
    ensures
        r is Ok,
        ({
            let (session, reader) = r->Ok_0;
            &&& session.id == id
            &&& session.iteration == 0
            &&& session.buffers@.len() == 0
            &&& session.queued_buffers@.len() == 0
            &&& !session.streaming
            &&& reader@.has_pipe == (camera.camera_pipe is Some)
            &&& !reader@.pipe_open
            &&& reader@.partial.len() == 0
        }),
{
    let (session, _reader) = r->Ok_0;
    assert(session@.id == id);
}

/// Who is granted buffers. A request is granted if and only if it is for capture buffers of `MMAP`
/// memory, the session does not stream, and no other session is active: the active session itself
/// can always ask again, whatever it has been through. A request for other buffers is refused with
/// `EINVAL`, one at the wrong time with `EBUSY`. A refused request changes nothing.
pub proof fn lemma_owner_can_always_ask_again<Q, M, P, F>(
    camera: &mut EmulatedCamera<Q, M, P>,
    session: &mut EmulatedCameraSession<F>,
    queue: QueueType,
    memory: MemoryType,
    count: u32,
    r: IoctlResult<BufferRequest>,
)
    requires
        call_ensures(
            EmulatedCamera::<Q, M, P>::reqbufs::<F>,
            (camera, session, queue, memory, count),
            r,
        ),
    ensures
        r is Ok <==> {
            &&& queue == QueueType::VideoCapture
            &&& memory == MemoryType::Mmap
            &&& !old(session).streaming
            &&& (old(camera).active_session is None
                || old(camera).active_session->Some_0 == old(session).id)
        },
        r is Err ==> r->Err_0 == (if queue == QueueType::VideoCapture && memory
            == MemoryType::Mmap {
            16i32
        } else {
            22i32
        }),
        r is Err ==> {
            &&& *final(camera) == *old(camera)
            &&& final(session).id == old(session).id
            &&& final(session).iteration == old(session).iteration
            &&& final(session).streaming == old(session).streaming
            &&& final(session).queued_buffers@ == old(session).queued_buffers@
            &&& final(session).buffers@ == old(session).buffers@
        },
{
    if r is Err {
        assert(final(session)@ == old(session)@);
    }
}

/// What a granted request does. As many buffers are to be allocated as were asked for, but at most
/// 32, and the offsets of the old ones are to be unregistered. The session becomes the active one,
/// or stops being it if it asked for none. Until the new buffers are there the session has the old
/// ones, made new where they are and with nothing queued.
pub proof fn lemma_granted_request<Q, M, P, F>(
    camera: &mut EmulatedCamera<Q, M, P>,
    session: &mut EmulatedCameraSession<F>,
    queue: QueueType,
    memory: MemoryType,
    count: u32,
    request: BufferRequest,
)
    requires
        call_ensures(
            EmulatedCamera::<Q, M, P>::reqbufs::<F>,
            (camera, session, queue, memory, count),
            Ok(request),
        ),
    ensures
        request.count == (if count <= 32 {
            count
        } else {
            32
        }),
        request.unregister@.len() == old(session).buffers@.len(),
        forall|i: int|
            0 <= i < old(session).buffers@.len() ==> #[trigger] request.unregister@[i]
                == old(session).buffers@[i].offset,
        count == 0 ==> final(camera).active_session is None,
        count > 0 ==> final(camera).active_session == Some(old(session).id),
        final(camera).evt_queue == old(camera).evt_queue,
        final(camera).mmap_manager == old(camera).mmap_manager,
        final(camera).lens_facing == old(camera).lens_facing,
        final(camera).camera_pipe == old(camera).camera_pipe,
        final(session).id == old(session).id,
        final(session).iteration == old(session).iteration,
        !final(session).streaming,
        final(session).queued_buffers@.len() == 0,
        final(session).buffers@.len() == old(session).buffers@.len(),
        forall|i: int|
            0 <= i < old(session).buffers@.len() ==> is_made_new(
                old(session).buffers@[i],
                #[trigger] final(session).buffers@[i],
            ),
{
    let r: IoctlResult<BufferRequest> = Ok(request);
    lemma_owner_can_always_ask_again(camera, session, queue, memory, count, r);
    assert(r->Ok_0.unregister@ == old(session)@.offsets());
    assert(final(session)@ == old(session)@.streamed_off());
    assert forall|i: int| 0 <= i < old(session).buffers@.len() implies is_made_new(
        old(session).buffers@[i],
        #[trigger] final(session).buffers@[i],
    ) by {
        lemma_flag_bits(old(session).buffers@[i].v4l2_buffer.flags);
        assert(final(session)@.buffers[i] == old(session)@.buffers[i].in_state(BufferState::New));
    }
}

/// Buffers are allocated as long as some are missing and none has failed.
pub proof fn lemma_allocation_goes_on<F>(
    request: &BufferRequest,
    allocations: &Vec<Result<(F, u32), AllocationError>>,
    needed: bool,
)
    requires
        call_ensures(BufferRequest::needs_allocation::<F>, (request, allocations), needed),
    ensures
        needed <==> allocations@.len() < request.count && forall|i: int|
            0 <= i < allocations@.len() ==> (#[trigger] allocations@[i]) is Ok,
{
    if forall|i: int| 0 <= i < allocations@.len() ==> (#[trigger] allocations@[i]) is Ok {
        lemma_allocation_failure(allocations@, allocations@.len() as int);
    } else {
        let k = lemma_first_failure(allocations@, allocations@.len() as int);
        lemma_allocation_failure(allocations@, k);
    }
}

/// Among outcomes that are not all good there is a first bad one.
proof fn lemma_first_failure<F>(
    allocations: Seq<Result<(F, u32), AllocationError>>,
    n: int,
) -> (k: int)
    requires
        0 <= n <= allocations.len(),
        exists|i: int| 0 <= i < n && (#[trigger] allocations[i]) is Err,
    ensures
        0 <= k < n,
        allocations[k] is Err,
        forall|i: int| 0 <= i < k ==> (#[trigger] allocations[i]) is Ok,
    decreases n,
{
    if exists|i: int| 0 <= i < n - 1 && (#[trigger] allocations[i]) is Err {
        lemma_first_failure(allocations, n - 1)
    } else {
        n - 1
    }
}

/// A request can be finished with at most as many outcomes as buffers were to be allocated, and
/// with all of them unless the last one failed; so it can be once no allocation is needed any more.
pub proof fn lemma_request_can_be_finished<Q, M, P, F>(
    camera: &EmulatedCamera<Q, M, P>,
    session: &mut EmulatedCameraSession<F>,
    request: &BufferRequest,
    allocations: Vec<Result<(F, u32), AllocationError>>,
)
    requires
        request.count <= 32,
        allocations@.len() <= request.count,
        allocations@.len() == request.count || exists|i: int|
            0 <= i < allocations@.len() && (#[trigger] allocations@[i]) is Err,
    ensures
        call_requires(
            EmulatedCamera::<Q, M, P>::finish_reqbufs::<F>,
            (camera, session, request, allocations),
        ),
{
    if exists|i: int| 0 <= i < allocations@.len() && (#[trigger] allocations@[i]) is Err {
        let k = lemma_first_failure(allocations@, allocations@.len() as int);
        lemma_allocation_failure(allocations@, k);
    }
}

/// Where every buffer was allocated, the session gets exactly these, in order: the buffer at an
/// index has the storage and the offset that were allocated for it, is new, holds nothing, and is
/// told of by that index and that offset. The guest is told how many there are.
pub proof fn lemma_session_gets_its_buffers<Q, M, P, F>(
    camera: &EmulatedCamera<Q, M, P>,
    session: &mut EmulatedCameraSession<F>,
    request: &BufferRequest,
    allocations: Vec<Result<(F, u32), AllocationError>>,
    r: IoctlResult<RequestBuffers>,
)
    requires
        request.count <= 32,
        allocations@.len() == request.count,
        forall|i: int| 0 <= i < allocations@.len() ==> (#[trigger] allocations@[i]) is Ok,
        call_ensures(
            EmulatedCamera::<Q, M, P>::finish_reqbufs::<F>,
            (camera, session, request, allocations),
            r,
        ),
    ensures
        r == Ok::<RequestBuffers, i32>(
            RequestBuffers { count: request.count, type_: 1, memory: 1, capabilities: 0x11 },
        ),
        final(session).id == old(session).id,
        final(session).iteration == old(session).iteration,
        final(session).streaming == old(session).streaming,
        final(session).queued_buffers@ == old(session).queued_buffers@,
        final(session).buffers@.len() == request.count,
        forall|i: int|
            0 <= i < request.count ==> {
                let buffer = #[trigger] final(session).buffers@[i];
                let (fd, offset) = allocations@[i]->Ok_0;
                let guest = buffer.v4l2_buffer;
                &&& buffer.state == BufferState::New
                &&& buffer.fd == fd
                &&& buffer.offset == offset
                &&& guest.index == i
                &&& guest.mem_offset == offset
                &&& guest.queue == QueueType::VideoCapture
                &&& guest.memory == MemoryType::Mmap
                &&& guest.length == 460_800
                &&& guest.bytesused == 0
                &&& guest.field == 1
                &&& guest.flags == 0x2000
                &&& guest.sequence == 0
                &&& guest.timestamp.tv_sec == 0
                &&& guest.timestamp.tv_usec == 0
            },
{
    lemma_allocation_failure(allocations@, allocations@.len() as int);
    assert(1u32 | 0x10u32 == 0x11) by (bit_vector);
    assert(final(session)@.queued == final(session).queued_buffers@);
    assert(old(session)@.queued == old(session).queued_buffers@);
    assert(final(session)@.buffers == final(session).buffers@);
}

/// Where a buffer could not be allocated, the guest is told `ENOMEM` if there was no storage for it
/// and `EINVAL` if there was no offset, and the session keeps what it had.
pub proof fn lemma_failed_allocation_changes_nothing<Q, M, P, F>(
    camera: &EmulatedCamera<Q, M, P>,
    session: &mut EmulatedCameraSession<F>,
    request: &BufferRequest,
    allocations: Vec<Result<(F, u32), AllocationError>>,
    good: int,
    r: IoctlResult<RequestBuffers>,
)
    requires
        request.count <= 32,
        0 <= good < allocations@.len() <= request.count,
        forall|i: int| 0 <= i < good ==> (#[trigger] allocations@[i]) is Ok,
        allocations@[good] is Err,
        call_ensures(
            EmulatedCamera::<Q, M, P>::finish_reqbufs::<F>,
            (camera, session, request, allocations),
            r,
        ),
    ensures
        r == Err::<RequestBuffers, i32>(
            if allocations@[good]->Err_0 == AllocationError::Storage {
                12
            } else {
                22
            },
        ),
        final(session).id == old(session).id,
        final(session).iteration == old(session).iteration,
        final(session).streaming == old(session).streaming,
        final(session).queued_buffers@ == old(session).queued_buffers@,
        final(session).buffers@ == old(session).buffers@,
{
    lemma_allocation_failure(allocations@, good);
    assert(final(session)@ == old(session)@);
}

/// After it stopped streaming, a session can free its buffers or get others in their place if no
/// other session is active, however many frames it was given.
pub proof fn lemma_capture_can_be_ended<Q, M, P, F>(
    camera: &mut EmulatedCamera<Q, M, P>,
    stopped: &mut EmulatedCameraSession<F>,
    session: &mut EmulatedCameraSession<F>,
    count: u32,
    r: IoctlResult<BufferRequest>,
)
    requires
        old(camera).active_session is None || old(camera).active_session == Some(old(stopped).id),
        *old(session) == *final(stopped),
        call_ensures(
            EmulatedCamera::<Q, M, P>::streamoff::<F>,
            (old(camera), stopped, QueueType::VideoCapture),
            Ok(()),
        ),
        call_ensures(
            EmulatedCamera::<Q, M, P>::reqbufs::<F>,
            (camera, session, QueueType::VideoCapture, MemoryType::Mmap, count),
            r,
        ),
    ensures
        r is Ok,
        r->Ok_0.unregister@.len() == old(stopped).buffers@.len(),
        count == 0 ==> final(camera).active_session is None,
{
    lemma_streamoff_stops(old(camera), stopped, QueueType::VideoCapture, Ok(()));
    lemma_owner_can_always_ask_again(
        camera,
        session,
        QueueType::VideoCapture,
        MemoryType::Mmap,
        count,
        r,
    );
    lemma_granted_request(
        camera,
        session,
        QueueType::VideoCapture,
        MemoryType::Mmap,
        count,
        r->Ok_0,
    );
}

/// Once a session was granted buffers, no other session is granted any, until the first one frees
/// its buffers or is closed.
pub proof fn lemma_only_one_session_is_granted<Q, M, P, F>(
    camera: &mut EmulatedCamera<Q, M, P>,
    session: &mut EmulatedCameraSession<F>,
    count: u32,
    request: BufferRequest,
    camera_then: &mut EmulatedCamera<Q, M, P>,
    other: &mut EmulatedCameraSession<F>,
    queue: QueueType,
    memory: MemoryType,
    other_count: u32,
    r: IoctlResult<BufferRequest>,
)
    requires
        *old(camera_then) == *final(camera),
        old(other).id != old(session).id,
        call_ensures(
            EmulatedCamera::<Q, M, P>::reqbufs::<F>,
            (camera, session, QueueType::VideoCapture, MemoryType::Mmap, count),
            Ok(request),
        ),
        call_ensures(
            EmulatedCamera::<Q, M, P>::reqbufs::<F>,
            (camera_then, other, queue, memory, other_count),
            r,
        ),
    ensures
        count > 0 ==> r is Err,
        count == 0 && !old(other).streaming && queue == QueueType::VideoCapture && memory
            == MemoryType::Mmap ==> r is Ok,
{
    lemma_granted_request(
        camera,
        session,
        QueueType::VideoCapture,
        MemoryType::Mmap,
        count,
        request,
    );
    lemma_owner_can_always_ask_again(camera_then, other, queue, memory, other_count, r);
}

/// Closing the active session leaves none active, and all its offsets are to be unregistered.
/// Closing any other session changes nothing, and nothing is to be unregistered.
pub proof fn lemma_closing_frees_the_camera<Q, M, P, F>(
    camera: &mut EmulatedCamera<Q, M, P>,
    session: &EmulatedCameraSession<F>,
    unregister: Vec<u32>,
)
    requires
        call_ensures(
            EmulatedCamera::<Q, M, P>::close_session::<F>,
            (camera, session),
            unregister,
        ),
    ensures
        old(camera).active_session == Some(session.id) ==> {
            &&& final(camera).active_session is None
            &&& unregister@.len() == session.buffers@.len()
            &&& forall|i: int|
                0 <= i < session.buffers@.len() ==> #[trigger] unregister@[i]
                    == session.buffers@[i].offset
        },
        old(camera).active_session != Some(session.id) ==> {
            &&& final(camera).active_session == old(camera).active_session
            &&& unregister@.len() == 0
        },
        final(camera).evt_queue == old(camera).evt_queue,
        final(camera).mmap_manager == old(camera).mmap_manager,
        final(camera).lens_facing == old(camera).lens_facing,
        final(camera).camera_pipe == old(camera).camera_pipe,
{
    if old(camera).active_session == Some(session.id) {
        assert(unregister@ == session@.offsets());
    }
}

/// A buffer is mapped by its offset: it is the first one that has the offset, to be written to if
/// and only if the lowest flag is set. Where no buffer has it, the guest is told `EINVAL`.
pub proof fn lemma_mapping_finds_the_buffer<Q, M, P, F>(
    camera: &EmulatedCamera<Q, M, P>,
    session: &EmulatedCameraSession<F>,
    flags: u32,
    offset: u32,
    r: IoctlResult<MappingRequest>,
)
    requires
        call_ensures(EmulatedCamera::<Q, M, P>::do_mmap::<F>, (camera, session, flags, offset), r),
    ensures
        match r {
            Ok(m) => {
                &&& m.index < session.buffers@.len()
                &&& session.buffers@[m.index as int].offset == offset
                &&& forall|i: int|
                    0 <= i < m.index ==> (#[trigger] session.buffers@[i]).offset != offset
                &&& m.offset == offset
                &&& m.rw == (flags & 1 != 0)
            },
            Err(error) => {
                &&& error == 22
                &&& forall|i: int|
                    0 <= i < session.buffers@.len() ==> (#[trigger] session.buffers@[i]).offset
                        != offset
            },
        },
{
    crate::session::lemma_first_with_offset(session@.buffers, offset);
    assert(session@.buffers == session.buffers@);
    assert(session.buffers@.len() == session.buffers.len());
}

/// The guest is told where a buffer was mapped, `EINVAL` where it could not be, and of no failure
/// to unmap.
pub proof fn lemma_mapping_is_answered<Q, M, P>(
    camera: &EmulatedCamera<Q, M, P>,
    mapping: Option<(u64, u64)>,
    mapped: IoctlResult<(u64, u64)>,
    unmapped: bool,
    r: IoctlResult<()>,
)
    requires
        call_ensures(EmulatedCamera::<Q, M, P>::finish_mmap, (camera, mapping), mapped),
        call_ensures(EmulatedCamera::<Q, M, P>::do_munmap, (camera, unmapped), r),
    ensures
        mapped is Ok <==> mapping is Some,
        mapped is Ok ==> mapped->Ok_0 == mapping->Some_0,
        mapped is Err ==> mapped->Err_0 == 22,
        r == Ok::<(), i32>(()),
{
}

/// Every buffer that a session was granted can be used: the guest can ask about it, map it by the
/// offset it is told, and queue it.
pub proof fn lemma_every_granted_buffer_works<Q, M, P, F>(
    camera: &EmulatedCamera<Q, M, P>,
    session: &mut EmulatedCameraSession<F>,
    request: &BufferRequest,
    allocations: Vec<Result<(F, u32), AllocationError>>,
    answer: IoctlResult<RequestBuffers>,
    index: u32,
    told: IoctlResult<V4l2Buffer>,
    flags: u32,
    mapped: IoctlResult<MappingRequest>,
    queueing: &mut EmulatedCameraSession<F>,
    queued: IoctlResult<V4l2Buffer>,
)
    requires
        request.count <= 32,
        allocations@.len() == request.count,
        forall|i: int| 0 <= i < allocations@.len() ==> (#[trigger] allocations@[i]) is Ok,
        index < request.count,
        call_ensures(
            EmulatedCamera::<Q, M, P>::finish_reqbufs::<F>,
            (camera, session, request, allocations),
            answer,
        ),
        call_ensures(
            EmulatedCamera::<Q, M, P>::querybuf::<F>,
            (camera, final(session), QueueType::VideoCapture, index),
            told,
        ),
        call_ensures(
            EmulatedCamera::<Q, M, P>::do_mmap::<F>,
            (camera, final(session), flags, told->Ok_0.mem_offset),
            mapped,
        ),
        *old(queueing) == *final(session),
        call_ensures(
            EmulatedCamera::<Q, M, P>::qbuf::<F>,
            (camera, queueing, told->Ok_0),
            queued,
        ),
    ensures
        told is Ok,
        told->Ok_0.index == index,
        told->Ok_0.mem_offset == allocations@[index as int]->Ok_0.1,
        mapped is Ok,
        (forall|i: int|
            0 <= i < index ==> (#[trigger] allocations@[i])->Ok_0.1 != told->Ok_0.mem_offset)
            ==> mapped->Ok_0.index == index,
        queued is Ok,
        queued->Ok_0.index == index,
{
    lemma_session_gets_its_buffers(camera, session, request, allocations, answer);
    lemma_querybuf_agrees(camera, final(session), QueueType::VideoCapture, index, told);
    assert(final(session).buffers@[index as int].v4l2_buffer == told->Ok_0);
    lemma_mapping_finds_the_buffer(
        camera,
        final(session),
        flags,
        told->Ok_0.mem_offset,
        mapped,
    );
    lemma_qbuf_queues(camera, queueing, told->Ok_0, queued);
    if mapped is Ok && (forall|i: int|
        0 <= i < index ==> (#[trigger] allocations@[i])->Ok_0.1 != told->Ok_0.mem_offset) {
        let found = mapped->Ok_0.index as int;
        if found < index {
            assert(final(session).buffers@[found].offset == allocations@[found]->Ok_0.1);
        }
    }
}

} // verus!
