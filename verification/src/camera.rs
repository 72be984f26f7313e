//! Buffer, streaming and session requests of the guest.

use vstd::prelude::*;

use crate::buffer::{
    allocated_v4l2_buffer, lemma_new_buffer_wf, new_v4l2_buffer, Buffer, BufferState,
};
use crate::errno::{ebusy, einval, enomem, IoctlResult, EBUSY, EINVAL, ENOMEM};
use crate::lens::LensFacing;
use crate::reader::{FrameReader, ReaderView};
use crate::session::{
    lemma_first_with_offset, lemma_queueing_keeps_wf, lemma_reset_keeps_wf, EmulatedCameraSession,
    SessionView, MAX_BUFFERS,
};
use crate::v4l2::{
    MemoryType, QueueType, RequestBuffers, V4l2Buffer, V4L2_BUF_CAP_SUPPORTS_MMAP,
    V4L2_BUF_CAP_SUPPORTS_ORPHANED_BUFS, VIRTIO_MEDIA_MMAP_FLAG_RW,
};

verus! {

/// Emulated camera used for testing the Android camera stack.
///
/// `Q` is the queue that events are sent to, `M` maps buffers into the guest, and `P` is a path.
pub struct EmulatedCamera<Q, M, P> {
    /// Queue used to send events to the guest.
    pub evt_queue: Q,
    /// Host mapping manager.
    pub mmap_manager: M,
    /// ID of the session with allocated buffers, if any.
    ///
    /// No two sessions can access a camera at the same time, so only a single session can have
    /// allocated buffers.
    pub active_session: Option<u32>,
    /// Lens facing configuration.
    pub lens_facing: LensFacing,
    /// Path to the named pipe for camera streaming.
    pub camera_pipe: Option<P>,
}

/// What has to be done outside to answer a request for buffers.
pub struct BufferRequest {
    /// Number of buffers to allocate.
    pub count: u32,
    /// Offsets to unregister before that.
    pub unregister: Vec<u32>,
}

/// Why a buffer could not be allocated.
#[derive(Debug, Clone, Copy, PartialEq, Eq, Structural)]
pub enum AllocationError {
    /// There was no storage for it.
    Storage,
    /// There was no offset for it.
    Offset,
}

/// A buffer to be mapped into the guest.
#[derive(Debug, Clone, Copy, PartialEq, Eq, Structural)]
pub struct MappingRequest {
    /// Index of the buffer.
    pub index: usize,
    /// Offset of the buffer.
    pub offset: u32,
    /// Whether the guest writes to it too.
    pub rw: bool,
}

/// Why a session is refused buffers, if it is: only capture buffers of `MMAP` memory can be had,
/// not while streaming, and not while another session is active.
pub open spec fn reqbufs_error<F>(
    active: Option<u32>,
    session: SessionView<F>,
    queue: QueueType,
    memory: MemoryType,
) -> Option<i32> {
    if queue != QueueType::VideoCapture || memory != MemoryType::Mmap {
        Some(EINVAL)
    } else if session.streaming || (active is Some && active != Some(session.id)) {
        Some(EBUSY)
    } else {
        None
    }
}

/// The active session after session `id` was granted a request for `count` buffers.
pub open spec fn active_after_reqbufs(id: u32, count: u32) -> Option<u32> {
    if count == 0 {
        None
    } else {
        Some(id)
    }
}

/// How many buffers a request for `count` of them is answered with.
pub open spec fn granted_count(count: u32) -> u32 {
    if count < MAX_BUFFERS {
        count
    } else {
        MAX_BUFFERS
    }
}

/// The error code of a buffer that could not be allocated.
pub open spec fn allocation_errno(error: AllocationError) -> i32 {
    match error {
        AllocationError::Storage => ENOMEM,
        AllocationError::Offset => EINVAL,
    }
}

/// The error code of the first buffer that could not be allocated, if any.
pub open spec fn allocation_failure<F>(
    allocations: Seq<Result<(F, u32), AllocationError>>,
) -> Option<i32>
    decreases allocations.len(),
{
    if allocations.len() == 0 {
        None
    } else {
        match allocations[0] {
            Err(error) => Some(allocation_errno(error)),
            Ok(_) => allocation_failure(allocations.drop_first()),
        }
    }
}

/// The buffers made of allocated storage and offsets.
pub open spec fn allocated_buffers<F>(
    allocations: Seq<Result<(F, u32), AllocationError>>,
) -> Seq<Buffer<F>> {
    Seq::new(
        allocations.len(),
        |i: int|
            Buffer {
                state: BufferState::New,
                v4l2_buffer: new_v4l2_buffer(i as u32, allocations[i]->Ok_0.1),
                fd: allocations[i]->Ok_0.0,
                offset: allocations[i]->Ok_0.1,
            },
    )
}

/// A session after the buffers it was granted were allocated, or one could not be.
pub open spec fn session_after_allocation<F>(
    session: SessionView<F>,
    allocations: Seq<Result<(F, u32), AllocationError>>,
) -> SessionView<F> {
    if allocation_failure(allocations) is None {
        SessionView { buffers: allocated_buffers(allocations), ..session }
    } else {
        session
    }
}

/// Whether `allocations` are the outcomes of allocating `count` buffers one after the other, as
/// far as the first failure.
pub open spec fn answers_request<F>(
    allocations: Seq<Result<(F, u32), AllocationError>>,
    count: u32,
) -> bool {
    &&& allocations.len() <= count
    &&& allocation_failure(allocations) is None ==> allocations.len() == count
}

/// Answer to a request that was granted `count` buffers.
pub open spec fn request_buffers_answer(count: u32) -> RequestBuffers {
    RequestBuffers {
        count,
        type_: QueueType::VideoCapture.spec_code(),
        memory: MemoryType::Mmap.spec_code(),
        capabilities: V4L2_BUF_CAP_SUPPORTS_MMAP | V4L2_BUF_CAP_SUPPORTS_ORPHANED_BUFS,
    }
}

/// An allocation fails where one of the buffers could not be had.
pub(crate) proof fn lemma_allocation_failure<F>(
    allocations: Seq<Result<(F, u32), AllocationError>>,
    good: int,
)
    requires
        0 <= good <= allocations.len(),
        forall|i: int| 0 <= i < good ==> (#[trigger] allocations[i]) is Ok,
    ensures
        good == allocations.len() ==> allocation_failure(allocations) is None,
        good < allocations.len() && allocations[good] is Err ==> allocation_failure(allocations)
            == Some(allocation_errno(allocations[good]->Err_0)),
    decreases good,
{
    if good > 0 {
        assert(allocations[0] is Ok);
        let rest = allocations.drop_first();
        assert forall|i: int| 0 <= i < good - 1 implies (#[trigger] rest[i]) is Ok by {
            assert(rest[i] == allocations[i + 1]);
        }
        lemma_allocation_failure(rest, good - 1);
        if good < allocations.len() {
            assert(rest[good - 1] == allocations[good]);
        }
    }
}

/// A session keeps what holds of every session when it is given buffers that were just
/// allocated.
pub proof fn lemma_allocation_keeps_wf<F>(
    session: SessionView<F>,
    allocations: Seq<Result<(F, u32), AllocationError>>,
)
    requires
        session.wf(),
        session.queued.len() == 0,
        !session.streaming,
        allocations.len() <= MAX_BUFFERS,
    ensures
        session_after_allocation(session, allocations).wf(),
{
    let buffers = allocated_buffers(allocations);
    assert forall|i: int| 0 <= i < buffers.len() implies (#[trigger] buffers[i]).wf(i) by {
        lemma_new_buffer_wf(i as u32, allocations[i]->Ok_0.0, allocations[i]->Ok_0.1);
    }
}

impl BufferRequest {
    /// Whether one more buffer has to be allocated after these outcomes: buffers are missing, and
    /// none has failed.
    ///
    /// A caller that starts with no outcome and stops when this is false has what
    /// [`EmulatedCamera::finish_reqbufs`] asks for.
    pub fn needs_allocation<F>(
        &self,
        allocations: &Vec<Result<(F, u32), AllocationError>>,
    ) -> (needed: bool)
        ensures
            needed <==> allocations@.len() < self.count && allocation_failure(allocations@) is None,
            !needed && allocations@.len() <= self.count ==> answers_request(
                allocations@,
                self.count,
            ),
    {
        let mut i: usize = 0;
        while i < allocations.len()
            invariant
                i <= allocations@.len(),
                forall|j: int| 0 <= j < i ==> (#[trigger] allocations@[j]) is Ok,
            decreases allocations@.len() - i,
        {
            if allocations[i].is_err() {
                proof {
                    lemma_allocation_failure(allocations@, i as int);
                }
                return false;
            }
            i += 1;
        }
        proof {
            lemma_allocation_failure(allocations@, i as int);
        }
        allocations.len() < self.count as usize
    }
}

impl<Q, M, P> EmulatedCamera<Q, M, P> {
    /// Creates a camera without an active session.
    pub fn new(evt_queue: Q, mmap_manager: M, lens_facing: LensFacing, camera_pipe: Option<P>) -> (
        camera: Self)
        ensures
            camera == (EmulatedCamera {
                evt_queue,
                mmap_manager,
                active_session: None,
                lens_facing,
                camera_pipe,
            }),
    {
        EmulatedCamera { evt_queue, mmap_manager, active_session: None, lens_facing, camera_pipe }
    }

    /// Opens a session, and starts the loop that feeds it with frames.
    pub fn new_session<F>(&self, session_id: u32) -> (r: IoctlResult<
        (EmulatedCameraSession<F>, FrameReader),
    >)
        ensures
            r is Ok,
            r->Ok_0.0@ == SessionView::<F>::opened(session_id),
            r->Ok_0.0@.wf(),
            r->Ok_0.1@ == ReaderView::started(self.camera_pipe is Some),
            r->Ok_0.1@.wf(),
    {
        Ok((EmulatedCameraSession::open(session_id), FrameReader::new(self.camera_pipe.is_some())))
    }

    /// Closes a session. Returns the offsets to unregister.
    pub fn close_session<F>(&mut self, session: &EmulatedCameraSession<F>) -> (unregister: Vec<u32>)
        ensures
            old(self).active_session == Some(session@.id) ==> {
                &&& *final(self) == (EmulatedCamera { active_session: None, ..*old(self) })
                &&& unregister@ == session@.offsets()
            },
            old(self).active_session != Some(session@.id) ==> {
                &&& *final(self) == *old(self)
                &&& unregister@ == Seq::<u32>::empty()
            },
    {
        let is_active: bool = match self.active_session {
            Some(id) => id == session.id,
            None => false,
        };
        if !is_active {
            return Vec::new();
        }
        self.active_session = None;
        session.buffer_offsets()
    }

    /// Finds the buffer that the guest wants to map.
    ///
    /// The caller maps it and reports to [`Self::finish_mmap`].
    pub fn do_mmap<F>(&self, session: &EmulatedCameraSession<F>, flags: u32, offset: u32) -> (r:
        IoctlResult<MappingRequest>)
        ensures
            session@.index_of_offset(offset) < session@.buffers.len() ==> r == Ok::<_, i32>(
                MappingRequest {
                    index: session@.index_of_offset(offset) as usize,
                    offset,
                    rw: flags & VIRTIO_MEDIA_MMAP_FLAG_RW != 0,
                },
            ),
            session@.index_of_offset(offset) >= session@.buffers.len() ==> r == Err::<
                MappingRequest,
                i32,
            >(EINVAL),
    {
        match session.find_buffer(offset) {
            Some(index) => Ok(
                MappingRequest { index, offset, rw: (flags & VIRTIO_MEDIA_MMAP_FLAG_RW) != 0 },
            ),
            None => Err(einval()),
        }
    }

    /// Answers a guest whose buffer was mapped at this address and with this size, or could not
    /// be mapped.
    pub fn finish_mmap(&self, mapping: Option<(u64, u64)>) -> (r: IoctlResult<(u64, u64)>)
        ensures
            mapping matches Some(m) ==> r == Ok::<(u64, u64), i32>(m),
            mapping is None ==> r == Err::<(u64, u64), i32>(EINVAL),
    {
        match mapping {
            Some(mapping) => Ok(mapping),
            None => Err(einval()),
        }
    }

    /// Answers a guest that unmapped a buffer: it is told of no failure.
    pub fn do_munmap(&self, _unmapped: bool) -> (r: IoctlResult<()>)
        ensures
            r == Ok::<(), i32>(()),
    {
        Ok(())
    }

    /// Starts to give a session `count` buffers in place of those it has.
    ///
    /// The caller unregisters the old buffers, allocates storage and then an offset for one buffer
    /// after the other as [`BufferRequest::needs_allocation`] says, and reports to
    /// [`Self::finish_reqbufs`].
    pub fn reqbufs<F>(
        &mut self,
        session: &mut EmulatedCameraSession<F>,
        queue: QueueType,
        memory: MemoryType,
        count: u32,
    ) -> (r: IoctlResult<BufferRequest>)
        ensures
            match reqbufs_error(old(self).active_session, old(session)@, queue, memory) {
                Some(error) => {
                    &&& r == Err::<BufferRequest, i32>(error)
                    &&& *final(self) == *old(self)
                    &&& final(session)@ == old(session)@
                },
                None => {
                    &&& r is Ok
                    &&& r->Ok_0.count == granted_count(count)
                    &&& r->Ok_0.unregister@ == old(session)@.offsets()
                    &&& *final(self) == (EmulatedCamera {
                        active_session: active_after_reqbufs(old(session)@.id, count),
                        ..*old(self)
                    })
                    &&& final(session)@ == old(session)@.streamed_off()
                },
            },
            old(session)@.wf() ==> final(session)@.wf(),
    {
        if queue != QueueType::VideoCapture {
            return Err(einval());
        }
        if memory != MemoryType::Mmap {
            return Err(einval());
        }
        if session.streaming {
            return Err(ebusy());
        }
        // Buffers cannot be requested on a session if there is already another session with
        // allocated buffers.
        match self.active_session {
            Some(id) if id != session.id => {
                return Err(ebusy());
            },
            _ => {},
        }
        // A request for no buffers is an implicit streamoff.
        if count == 0 {
            self.active_session = None;
            match self.streamoff(session, queue) {
                Ok(()) => {},
                Err(error) => {
                    return Err(error);
                },
            }
        } else {
            session.reset();
            self.active_session = Some(session.id);
        }
        assert(session@ =~= old(session)@.streamed_off());
        assert(session@.offsets() =~= old(session)@.offsets());
        let unregister = session.buffer_offsets();
        let count: u32 = if count < MAX_BUFFERS {
            count
        } else {
            MAX_BUFFERS
        };
        Ok(BufferRequest { count, unregister })
    }

    /// Gives a session the buffers that were allocated for a request, in order, unless one could
    /// not be allocated: then the session keeps the buffers it had.
    pub fn finish_reqbufs<F>(
        &self,
        session: &mut EmulatedCameraSession<F>,
        request: &BufferRequest,
        allocations: Vec<Result<(F, u32), AllocationError>>,
    ) -> (r: IoctlResult<RequestBuffers>)
        requires
            request.count <= MAX_BUFFERS,
            answers_request(allocations@, request.count),
        ensures
            match allocation_failure(allocations@) {
                Some(error) => r == Err::<RequestBuffers, i32>(error),
                None => r == Ok::<RequestBuffers, i32>(request_buffers_answer(request.count)),
            },
            final(session)@ == session_after_allocation(old(session)@, allocations@),
            old(session)@.wf() && old(session)@.queued.len() == 0 && !old(session)@.streaming
                ==> final(session)@.wf(),
    {
        let ghost outcomes = allocations@;
        let ghost before = session@;
        proof {
            if before.wf() && before.queued.len() == 0 && !before.streaming {
                lemma_allocation_keeps_wf(before, outcomes);
            }
        }
        let mut buffers: Vec<Buffer<F>> = Vec::new();
        for allocation in outcome: allocations
            invariant
                outcome.seq() == outcomes,
                outcomes.len() <= MAX_BUFFERS,
                buffers@.len() == outcome.index(),
                forall|i: int| 0 <= i < outcome.index() ==> (#[trigger] outcomes[i]) is Ok,
                forall|i: int|
                    0 <= i < outcome.index() ==> #[trigger] buffers@[i] == allocated_buffers(
                        outcomes,
                    )[i],
                session@ == before,
        {
            let index: u32 = buffers.len() as u32;
            match allocation {
                Ok((fd, offset)) => {
                    buffers.push(Buffer::new(allocated_v4l2_buffer(index, offset), fd, offset));
                },
                Err(error) => {
                    proof {
                        lemma_allocation_failure(outcomes, index as int);
                    }
                    return Err(
                        match error {
                            AllocationError::Storage => enomem(),
                            AllocationError::Offset => einval(),
                        },
                    );
                },
            }
        }
        proof {
            lemma_allocation_failure(outcomes, outcomes.len() as int);
        }
        assert(buffers@ =~= allocated_buffers(outcomes));
        session.buffers = buffers;
        assert(session@ =~= session_after_allocation(before, outcomes));
        Ok(
            RequestBuffers {
                count: request.count,
                type_: QueueType::VideoCapture.code(),
                memory: MemoryType::Mmap.code(),
                capabilities: V4L2_BUF_CAP_SUPPORTS_MMAP | V4L2_BUF_CAP_SUPPORTS_ORPHANED_BUFS,
            },
        )
    }

    /// Tells the guest of a buffer.
    pub fn querybuf<F>(
        &self,
        session: &EmulatedCameraSession<F>,
        queue: QueueType,
        index: u32,
    ) -> (r: IoctlResult<V4l2Buffer>)
        ensures
            queue == QueueType::VideoCapture && index < session@.buffers.len() ==> r == Ok::<
                V4l2Buffer,
                i32,
            >(session@.buffers[index as int].v4l2_buffer),
            queue != QueueType::VideoCapture || index >= session@.buffers.len() ==> r == Err::<
                V4l2Buffer,
                i32,
            >(EINVAL),
    {
        if queue != QueueType::VideoCapture {
            return Err(einval());
        }
        if index as usize >= session.buffers.len() {
            return Err(einval());
        }
        Ok(session.buffers[index as usize].v4l2_buffer)
    }

    /// Queues a buffer of the session to be filled with a frame.
    pub fn qbuf<F>(&self, session: &mut EmulatedCameraSession<F>, buffer: V4l2Buffer) -> (r:
        IoctlResult<V4l2Buffer>)
        ensures
            old(session)@.can_queue(buffer.index as int) ==> {
                &&& final(session)@ == old(session)@.with_queued(buffer.index as int)
                &&& r == Ok::<V4l2Buffer, i32>(
                    final(session)@.buffers[buffer.index as int].v4l2_buffer,
                )
            },
            !old(session)@.can_queue(buffer.index as int) ==> {
                &&& final(session)@ == old(session)@
                &&& r == Err::<V4l2Buffer, i32>(EINVAL)
            },
            old(session)@.wf() ==> final(session)@.wf(),
    {
        let ghost before = session@;
        let buffer_index: usize = buffer.index as usize;
        if buffer_index >= session.buffers.len() {
            return Err(einval());
        }
        // Attempt to queue already queued buffer.
        if session.buffers[buffer_index].state == BufferState::Incoming {
            return Err(einval());
        }
        proof {
            if before.wf() {
                lemma_queueing_keeps_wf(before, buffer.index as int);
            }
        }
        session.buffers[buffer_index].set_state(BufferState::Incoming);
        session.queued_buffers.push_back(buffer_index);
        assert(session@ =~= before.with_queued(buffer.index as int));
        Ok(session.buffers[buffer_index].v4l2_buffer)
    }

    /// Starts streaming, if the session has buffers.
    pub fn streamon<F>(&self, session: &mut EmulatedCameraSession<F>, queue: QueueType) -> (r:
        IoctlResult<()>)
        ensures
            queue == QueueType::VideoCapture && old(session)@.buffers.len() > 0 ==> {
                &&& r == Ok::<(), i32>(())
                &&& final(session)@ == (SessionView { streaming: true, ..old(session)@ })
            },
            queue != QueueType::VideoCapture || old(session)@.buffers.len() == 0 ==> {
                &&& r == Err::<(), i32>(EINVAL)
                &&& final(session)@ == old(session)@
            },
            old(session)@.wf() ==> final(session)@.wf(),
    {
        if queue != QueueType::VideoCapture {
            return Err(einval());
        }
        if session.buffers.len() == 0 {
            return Err(einval());
        }
        session.streaming = true;
        Ok(())
    }

    /// Stops streaming, forgets what is queued, and makes every buffer new.
    pub fn streamoff<F>(&self, session: &mut EmulatedCameraSession<F>, queue: QueueType) -> (r:
        IoctlResult<()>)
        ensures
            queue == QueueType::VideoCapture ==> {
                &&& r == Ok::<(), i32>(())
                &&& final(session)@ == old(session)@.streamed_off()
            },
            queue != QueueType::VideoCapture ==> {
                &&& r == Err::<(), i32>(EINVAL)
                &&& final(session)@ == old(session)@
            },
            old(session)@.wf() ==> final(session)@.wf(),
    {
        if queue != QueueType::VideoCapture {
            return Err(einval());
        }
        let ghost before = session@;
        session.streaming = false;
        session.reset();
        assert(session@ =~= before.streamed_off());
        proof {
            if before.wf() {
                lemma_reset_keeps_wf(before);
            }
        }
        Ok(())
    }
}

/// Whether a session has buffers only while it is the active one.
pub open spec fn owns_buffers<F>(active: Option<u32>, session: SessionView<F>) -> bool {
    session.buffers.len() > 0 ==> active == Some(session.id)
}

/// Two sessions never have buffers at the same time.
pub proof fn lemma_single_owner<F>(active: Option<u32>, one: SessionView<F>, other: SessionView<F>)
    requires
        owns_buffers(active, one),
        owns_buffers(active, other),
        one.id != other.id,
    ensures
        one.buffers.len() == 0 || other.buffers.len() == 0,
{
}

/// While one session has buffers, another one is refused any.
pub proof fn lemma_owner_excludes_others<F>(
    active: Option<u32>,
    owner: SessionView<F>,
    other: SessionView<F>,
)
    requires
        owns_buffers(active, owner),
        owner.buffers.len() > 0,
        other.id != owner.id,
    ensures
        reqbufs_error(active, other, QueueType::VideoCapture, MemoryType::Mmap) == Some(EBUSY),
{
}

/// Granting a request for buffers, whatever its allocations came to, leaves buffers with the
/// active session only, both for the session that asked and for every other session.
pub proof fn lemma_request_keeps_single_owner<F>(
    active: Option<u32>,
    session: SessionView<F>,
    other: SessionView<F>,
    count: u32,
    allocations: Seq<Result<(F, u32), AllocationError>>,
)
    requires
        owns_buffers(active, session),
        owns_buffers(active, other),
        other.id != session.id,
        reqbufs_error(active, session, QueueType::VideoCapture, MemoryType::Mmap) is None,
        answers_request(allocations, granted_count(count)),
    ensures
        owns_buffers(
            active_after_reqbufs(session.id, count),
            session_after_allocation(session.streamed_off(), allocations),
        ),
        owns_buffers(active_after_reqbufs(session.id, count), other),
{
    if count == 0 {
        assert(allocation_failure(allocations) is None);
    }
}

/// Closing a session leaves every other session what it had, and buffers with the active session
/// only.
pub proof fn lemma_closing_keeps_single_owner<F>(
    active: Option<u32>,
    closed: SessionView<F>,
    other: SessionView<F>,
)
    requires
        owns_buffers(active, closed),
        owns_buffers(active, other),
        other.id != closed.id,
    ensures
        active == Some(closed.id) ==> owns_buffers(None, other),
        active != Some(closed.id) ==> closed.offsets() == Seq::<u32>::empty(),
{
    if active != Some(closed.id) {
        assert(closed.offsets() =~= Seq::<u32>::empty());
    }
}

/// Streaming, queueing and delivering frames neither gives buffers to a session nor takes any
/// away.
pub proof fn lemma_frames_keep_buffers<F>(active: Option<u32>, session: SessionView<F>, index: int)
    requires
        owns_buffers(active, session),
        0 <= index < session.buffers.len(),
    ensures
        owns_buffers(active, session.streamed_off()),
        owns_buffers(active, session.with_queued(index)),
        owns_buffers(active, session.frame_begun()),
        owns_buffers(active, session.frame_stored(index)),
        owns_buffers(active, (SessionView { streaming: true, ..session })),
{
}

/// A request for no buffers is an implicit streamoff: it leaves the session stopped and without
/// buffers, lets every session ask for buffers, and cannot fail.
pub proof fn lemma_empty_request_is_streamoff<F>(
    active: Option<u32>,
    session: SessionView<F>,
    other: SessionView<F>,
    allocations: Seq<Result<(F, u32), AllocationError>>,
)
    requires
        reqbufs_error(active, session, QueueType::VideoCapture, MemoryType::Mmap) is None,
        answers_request(allocations, granted_count(0)),
    ensures
        allocation_failure(allocations) is None,
        session_after_allocation(session.streamed_off(), allocations) == (SessionView {
            buffers: Seq::empty(),
            ..session.streamed_off()
        }),
        active_after_reqbufs(session.id, 0) is None,
        !other.streaming ==> reqbufs_error(
            active_after_reqbufs(session.id, 0),
            other,
            QueueType::VideoCapture,
            MemoryType::Mmap,
        ) is None,
{
    assert(allocated_buffers(allocations) =~= Seq::<Buffer<F>>::empty());
}

/// A granted request gives the session as many buffers as the answer says, at most 32, numbered
/// from zero; each can be queued, and the offset that the guest is told of it leads to a buffer.
pub proof fn lemma_granted_buffers_can_be_used<F>(
    session: SessionView<F>,
    count: u32,
    allocations: Seq<Result<(F, u32), AllocationError>>,
    index: int,
)
    requires
        session.wf(),
        !session.streaming,
        answers_request(allocations, granted_count(count)),
        allocation_failure(allocations) is None,
        0 <= index < granted_count(count),
    ensures
        ({
            let after = session_after_allocation(session.streamed_off(), allocations);
            let guest = after.buffers[index].v4l2_buffer;
            &&& after.wf()
            &&& after.buffers.len() == granted_count(count) <= MAX_BUFFERS
            &&& guest.index == index
            &&& after.can_queue(index)
            &&& after.index_of_offset(guest.mem_offset) <= index
        }),
{
    lemma_reset_keeps_wf(session);
    lemma_allocation_keeps_wf(session.streamed_off(), allocations);
    let after = session_after_allocation(session.streamed_off(), allocations);
    assert(after.buffers[index].wf(index));
    lemma_first_with_offset(after.buffers, after.buffers[index].offset);
}

/// Every buffer of a session can be mapped by the offset that the guest is told; where no two
/// buffers share an offset, it is that very buffer that is found.
pub proof fn lemma_reported_offset_can_be_mapped<F>(session: SessionView<F>, index: int)
    requires
        session.wf(),
        0 <= index < session.buffers.len(),
    ensures
        session.index_of_offset(session.buffers[index].v4l2_buffer.mem_offset)
            < session.buffers.len(),
        (forall|i: int|
            0 <= i < session.buffers.len() && i != index ==> (#[trigger] session.buffers[i]).offset
                != session.buffers[index].offset) ==> session.index_of_offset(
            session.buffers[index].v4l2_buffer.mem_offset,
        ) == index,
{
    assert(session.buffers[index].wf(index));
    lemma_first_with_offset(session.buffers, session.buffers[index].offset);
}

} // verus!
