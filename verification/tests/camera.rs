use emulated_camera::buffer::{Buffer, BufferState};
use emulated_camera::camera::{AllocationError, EmulatedCamera, MappingRequest};
use emulated_camera::errno::{EBUSY, EINVAL, ENOMEM};
use emulated_camera::frame::BUFFER_SIZE;
use emulated_camera::lens::LensFacing;
use emulated_camera::session::{EmulatedCameraSession, FrameSlot};
use emulated_camera::v4l2::{
    MemoryType, QueueType, RequestBuffers, Timeval, V4l2Buffer, V4L2_BUF_FLAG_QUEUED,
    V4L2_BUF_FLAG_TIMESTAMP_MONOTONIC,
};

type Camera = EmulatedCamera<(), (), String>;
type Session = EmulatedCameraSession<u32>;

fn camera() -> Camera {
    EmulatedCamera::new((), (), LensFacing::Back, None)
}

fn session(camera: &Camera, id: u32) -> Session {
    camera.new_session(id).unwrap().0
}

/// Requests buffers whose storage is numbered from 100, at offsets that are multiples of 4096.
fn request(camera: &mut Camera, session: &mut Session, count: u32) -> Result<RequestBuffers, i32> {
    let request = camera.reqbufs(session, QueueType::VideoCapture, MemoryType::Mmap, count)?;
    let mut allocations = Vec::new();
    while request.needs_allocation(&allocations) {
        let i = allocations.len() as u32;
        allocations.push(Ok((100 + i, i * 4096)));
    }
    camera.finish_reqbufs(session, &request, allocations)
}

fn queue(camera: &Camera, session: &mut Session, index: u32) -> Result<V4l2Buffer, i32> {
    let buffer = camera.querybuf(session, QueueType::VideoCapture, index)?;
    camera.qbuf(session, buffer)
}

#[test]
fn new_camera_and_session_are_idle() {
    let camera: EmulatedCamera<u8, u16, String> =
        EmulatedCamera::new(1, 2, LensFacing::Front, Some("pipe".to_string()));
    assert_eq!(camera.evt_queue, 1);
    assert_eq!(camera.mmap_manager, 2);
    assert_eq!(camera.active_session, None);
    assert_eq!(camera.lens_facing, LensFacing::Front);
    assert_eq!(camera.camera_pipe, Some("pipe".to_string()));
    let (session, _reader) = camera.new_session::<u32>(9).unwrap();
    assert_eq!(session.id, 9);
    assert_eq!(session.iteration, 0);
    assert!(session.buffers.is_empty());
    assert!(session.queued_buffers.is_empty());
    assert!(!session.streaming);
}

#[test]
fn requested_buffers_are_described() {
    let mut camera = camera();
    let mut session = session(&camera, 1);
    assert_eq!(
        request(&mut camera, &mut session, 3),
        Ok(RequestBuffers { count: 3, type_: 1, memory: 1, capabilities: 0x11 })
    );
    assert_eq!(camera.active_session, Some(1));
    assert_eq!(session.buffers.len(), 3);
    assert_eq!(session.buffers[2].fd, 102);
    assert_eq!(
        camera.querybuf(&session, QueueType::VideoCapture, 2),
        Ok(V4l2Buffer {
            index: 2,
            queue: QueueType::VideoCapture,
            memory: MemoryType::Mmap,
            flags: 0x2000,
            field: 1,
            timestamp: Timeval { tv_sec: 0, tv_usec: 0 },
            sequence: 0,
            bytesused: 0,
            length: 460_800,
            mem_offset: 8192,
        })
    );
    assert_eq!(camera.querybuf(&session, QueueType::VideoCapture, 3), Err(EINVAL));
    assert_eq!(camera.querybuf(&session, QueueType::VideoOutput, 0), Err(EINVAL));
}

#[test]
fn at_most_32_buffers_are_granted() {
    let mut camera = camera();
    let mut session = session(&camera, 1);
    assert_eq!(request(&mut camera, &mut session, 1000).unwrap().count, 32);
    assert_eq!(session.buffers.len(), 32);
    assert_eq!(request(&mut camera, &mut session, 32).unwrap().count, 32);
    assert_eq!(request(&mut camera, &mut session, 31).unwrap().count, 31);
}

#[test]
fn wrong_requests_are_refused() {
    let mut camera = camera();
    let mut session = session(&camera, 1);
    let mut refused = |queue, memory| {
        camera.reqbufs(&mut session, queue, memory, 1).err()
    };
    assert_eq!(refused(QueueType::VideoCaptureMplane, MemoryType::Mmap), Some(EINVAL));
    assert_eq!(refused(QueueType::VideoCapture, MemoryType::UserPtr), Some(EINVAL));
    assert_eq!(camera.active_session, None);
}

#[test]
fn request_while_streaming_is_busy() {
    let mut camera = camera();
    let mut session = session(&camera, 1);
    request(&mut camera, &mut session, 1).unwrap();
    camera.streamon(&mut session, QueueType::VideoCapture).unwrap();
    assert_eq!(request(&mut camera, &mut session, 0), Err(EBUSY));
    assert_eq!(session.buffers.len(), 1);
}

#[test]
fn only_one_session_has_buffers() {
    let mut camera = camera();
    let mut one = session(&camera, 1);
    let mut other = session(&camera, 2);
    request(&mut camera, &mut one, 2).unwrap();
    assert_eq!(request(&mut camera, &mut other, 2), Err(EBUSY));
    assert_eq!(request(&mut camera, &mut other, 0), Err(EBUSY));
    assert!(other.buffers.is_empty());
    // Closing a session that is not active changes nothing.
    assert!(camera.close_session(&other).is_empty());
    assert_eq!(camera.active_session, Some(1));
    // Closing the active one lets others in.
    assert_eq!(camera.close_session(&one), vec![0, 4096]);
    assert_eq!(camera.active_session, None);
    assert!(request(&mut camera, &mut other, 2).is_ok());
}

#[test]
fn empty_request_is_an_implicit_streamoff() {
    let mut camera = camera();
    let mut session = session(&camera, 1);
    request(&mut camera, &mut session, 2).unwrap();
    queue(&camera, &mut session, 0).unwrap();
    let empty = camera
        .reqbufs(&mut session, QueueType::VideoCapture, MemoryType::Mmap, 0)
        .unwrap();
    assert_eq!(empty.count, 0);
    assert_eq!(empty.unregister, vec![0, 4096]);
    assert!(session.queued_buffers.is_empty());
    assert_eq!(
        camera.finish_reqbufs(&mut session, &empty, vec![]),
        Ok(RequestBuffers { count: 0, type_: 1, memory: 1, capabilities: 0x11 })
    );
    assert!(session.buffers.is_empty());
    assert_eq!(camera.active_session, None);
}

#[test]
fn failed_allocation_keeps_the_old_buffers() {
    for (error, errno) in [(AllocationError::Storage, ENOMEM), (AllocationError::Offset, EINVAL)] {
        let mut camera = camera();
        let mut session = session(&camera, 1);
        request(&mut camera, &mut session, 1).unwrap();
        queue(&camera, &mut session, 0).unwrap();
        let more = camera
            .reqbufs(&mut session, QueueType::VideoCapture, MemoryType::Mmap, 3)
            .unwrap();
        assert_eq!(more.unregister, vec![0]);
        let allocations = vec![Ok((7, 0)), Err(error)];
        assert!(!more.needs_allocation(&allocations));
        assert_eq!(camera.finish_reqbufs(&mut session, &more, allocations), Err(errno));
        assert_eq!(session.buffers.len(), 1);
        assert_eq!(session.buffers[0].fd, 100);
        assert_eq!(session.buffers[0].state, BufferState::New);
        assert!(session.queued_buffers.is_empty());
        assert_eq!(camera.active_session, Some(1));
    }
}

#[test]
fn buffers_are_queued_once() {
    let mut camera = camera();
    let mut session = session(&camera, 1);
    request(&mut camera, &mut session, 2).unwrap();
    let queued = queue(&camera, &mut session, 1).unwrap();
    assert_eq!(queued.flags, V4L2_BUF_FLAG_TIMESTAMP_MONOTONIC | V4L2_BUF_FLAG_QUEUED);
    assert_eq!(queued.index, 1);
    assert_eq!(queue(&camera, &mut session, 1), Err(EINVAL));
    let mut beyond = queued;
    beyond.index = 2;
    assert_eq!(camera.qbuf(&mut session, beyond), Err(EINVAL));
    assert_eq!(session.queued_buffers, [1]);
}

#[test]
fn frames_follow_the_queue() {
    let mut camera = camera();
    let mut session = session(&camera, 5);
    request(&mut camera, &mut session, 3).unwrap();
    for index in [2, 0, 1] {
        queue(&camera, &mut session, index).unwrap();
    }
    assert_eq!(session.begin_frame(), None);
    camera.streamon(&mut session, QueueType::VideoCapture).unwrap();
    for (n, index) in [2usize, 0, 1].into_iter().enumerate() {
        assert_eq!(
            session.begin_frame(),
            Some(FrameSlot { index, iteration: n as u64 })
        );
        let event = session.finish_frame(index, true).unwrap();
        assert_eq!(event.session_id, 5);
        assert_eq!(event.buffer.index as usize, index);
        assert_eq!(event.buffer.sequence as usize, n);
        assert_eq!(event.buffer.bytesused, BUFFER_SIZE);
        assert_eq!(event.buffer.flags, V4L2_BUF_FLAG_TIMESTAMP_MONOTONIC);
        assert_eq!(event.buffer.timestamp, Timeval { tv_sec: 0, tv_usec: n as i64 + 1 });
    }
    assert_eq!(session.begin_frame(), None);
    assert_eq!(session.iteration, 3);
    // A filled buffer can be queued again.
    assert_eq!(queue(&camera, &mut session, 0).unwrap().bytesused, 0);
}

#[test]
fn failed_frame_holds_its_buffer() {
    let mut camera = camera();
    let mut session = session(&camera, 1);
    request(&mut camera, &mut session, 1).unwrap();
    queue(&camera, &mut session, 0).unwrap();
    camera.streamon(&mut session, QueueType::VideoCapture).unwrap();
    assert_eq!(session.begin_frame(), Some(FrameSlot { index: 0, iteration: 0 }));
    assert_eq!(session.finish_frame(0, false), None);
    assert_eq!(session.iteration, 0);
    assert_eq!(session.begin_frame(), None);
    assert_eq!(queue(&camera, &mut session, 0), Err(EINVAL));
    camera.streamoff(&mut session, QueueType::VideoCapture).unwrap();
    assert!(queue(&camera, &mut session, 0).is_ok());
}

#[test]
fn unknown_buffers_get_no_frame() {
    let mut camera = camera();
    let mut session = session(&camera, 1);
    request(&mut camera, &mut session, 1).unwrap();
    camera.streamon(&mut session, QueueType::VideoCapture).unwrap();
    session.queued_buffers.push_back(4);
    assert_eq!(session.begin_frame(), None);
    assert!(session.queued_buffers.is_empty());
    assert_eq!(session.finish_frame(4, true), None);
    assert_eq!(session.iteration, 0);
}

#[test]
fn sequence_numbers_wrap() {
    let mut camera = camera();
    let mut session = session(&camera, 1);
    request(&mut camera, &mut session, 1).unwrap();
    camera.streamon(&mut session, QueueType::VideoCapture).unwrap();
    session.iteration = 0xffff_ffff;
    let event = session.finish_frame(0, true).unwrap();
    assert_eq!(event.buffer.sequence, 0xffff_ffff);
    assert_eq!(event.buffer.timestamp, Timeval { tv_sec: 0, tv_usec: 0 });
    let event = session.finish_frame(0, true).unwrap();
    assert_eq!(event.buffer.sequence, 0);
    session.iteration = u64::MAX;
    assert!(session.finish_frame(0, true).is_some());
    assert_eq!(session.iteration, 0);
}

#[test]
fn streaming_needs_buffers() {
    let mut camera = camera();
    let mut session = session(&camera, 1);
    assert_eq!(camera.streamon(&mut session, QueueType::VideoCapture), Err(EINVAL));
    request(&mut camera, &mut session, 1).unwrap();
    assert_eq!(camera.streamon(&mut session, QueueType::VideoOutput), Err(EINVAL));
    assert!(!session.streaming);
    assert_eq!(camera.streamon(&mut session, QueueType::VideoCapture), Ok(()));
    assert!(session.streaming);
}

#[test]
fn streamoff_forgets_the_queue() {
    let mut camera = camera();
    let mut session = session(&camera, 1);
    request(&mut camera, &mut session, 2).unwrap();
    queue(&camera, &mut session, 0).unwrap();
    queue(&camera, &mut session, 1).unwrap();
    camera.streamon(&mut session, QueueType::VideoCapture).unwrap();
    session.begin_frame().unwrap();
    session.finish_frame(0, true).unwrap();
    assert_eq!(camera.streamoff(&mut session, QueueType::VideoOverlay), Err(EINVAL));
    assert!(session.streaming);
    assert_eq!(camera.streamoff(&mut session, QueueType::VideoCapture), Ok(()));
    assert!(!session.streaming);
    assert!(session.queued_buffers.is_empty());
    for buffer in &session.buffers {
        assert_eq!(buffer.state, BufferState::New);
        assert_eq!(buffer.v4l2_buffer.bytesused, 0);
        assert_eq!(buffer.v4l2_buffer.flags, V4L2_BUF_FLAG_TIMESTAMP_MONOTONIC);
    }
    // The count of frames goes on.
    assert_eq!(session.iteration, 1);
    camera.streamon(&mut session, QueueType::VideoCapture).unwrap();
    assert_eq!(session.begin_frame(), None);
}

#[test]
fn state_of_a_buffer_reaches_its_description() {
    let mut camera = camera();
    let mut session = session(&camera, 1);
    request(&mut camera, &mut session, 1).unwrap();
    let buffer: &mut Buffer<u32> = &mut session.buffers[0];
    buffer.v4l2_buffer.flags = 0x1;
    buffer.v4l2_buffer.bytesused = 12;
    buffer.set_state(BufferState::Incoming);
    assert_eq!((buffer.v4l2_buffer.flags, buffer.v4l2_buffer.bytesused), (0x3, 0));
    buffer.v4l2_buffer.bytesused = 12;
    buffer.set_state(BufferState::Outgoing { sequence: 1999 });
    assert_eq!((buffer.v4l2_buffer.flags, buffer.v4l2_buffer.bytesused), (0x1, 12));
    assert_eq!(buffer.v4l2_buffer.timestamp, Timeval { tv_sec: 2, tv_usec: 0 });
    buffer.set_state(BufferState::New);
    assert_eq!(buffer.v4l2_buffer.bytesused, 0);
    let mut flags = 0b1011;
    Buffer::<u32>::unset_flag(&mut flags, 0b0110);
    assert_eq!(flags, 0b1001);
}

#[test]
fn unknown_flags_are_dropped() {
    let mut camera = camera();
    let mut session = session(&camera, 1);
    request(&mut camera, &mut session, 1).unwrap();
    let buffer: &mut Buffer<u32> = &mut session.buffers[0];
    for (state, flags) in [
        (BufferState::New, 0x0091_7d7d),
        (BufferState::Incoming, 0x0091_7d7f),
        (BufferState::Outgoing { sequence: 0 }, 0x0091_7d7d),
    ] {
        buffer.v4l2_buffer.flags = 0xffff_ffff;
        buffer.set_state(state);
        assert_eq!(buffer.v4l2_buffer.flags, flags);
    }
    // `IN_REQUEST` and `M2M_HOLD_CAPTURE_BUF` are not among the known flags.
    buffer.v4l2_buffer.flags = 0x2000 | 0x80 | 0x200;
    buffer.set_state(BufferState::Incoming);
    assert_eq!(buffer.v4l2_buffer.flags, 0x2002);
    let mut flags = 0x8000_0281;
    Buffer::<u32>::unset_flag(&mut flags, 0);
    assert_eq!(flags, 1);
}

#[test]
fn reported_offsets_can_be_mapped() {
    let mut camera = camera();
    let mut session = session(&camera, 1);
    request(&mut camera, &mut session, 3).unwrap();
    let offset = camera
        .querybuf(&session, QueueType::VideoCapture, 1)
        .unwrap()
        .mem_offset;
    assert_eq!(
        camera.do_mmap(&session, 0, offset),
        Ok(MappingRequest { index: 1, offset: 4096, rw: false })
    );
    assert_eq!(
        camera.do_mmap(&session, 1, offset),
        Ok(MappingRequest { index: 1, offset: 4096, rw: true })
    );
    assert_eq!(
        camera.do_mmap(&session, 2, offset),
        Ok(MappingRequest { index: 1, offset: 4096, rw: false })
    );
    assert_eq!(camera.do_mmap(&session, 1, 4097), Err(EINVAL));
    session.buffers[2].offset = 4096;
    assert_eq!(camera.do_mmap(&session, 0, 4096).unwrap().index, 1);
}

#[test]
fn mapping_outcomes_are_answered() {
    let camera = camera();
    assert_eq!(camera.finish_mmap(Some((0x1000, 0x2000))), Ok((0x1000, 0x2000)));
    assert_eq!(camera.finish_mmap(None), Err(EINVAL));
    assert_eq!(camera.do_munmap(true), Ok(()));
    assert_eq!(camera.do_munmap(false), Ok(()));
}
