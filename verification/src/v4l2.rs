//! Plain values exchanged with the guest, and the numbers of the V4L2 ABI they are made of.

use vstd::prelude::*;

verus! {

/// `V4L2_BUF_FLAG_QUEUED`: the buffer waits for a frame.
pub const V4L2_BUF_FLAG_QUEUED: u32 = 0x0000_0002;

/// `V4L2_BUF_FLAG_TIMESTAMP_MONOTONIC`: the timestamp comes from the monotonic clock.
pub const V4L2_BUF_FLAG_TIMESTAMP_MONOTONIC: u32 = 0x0000_2000;

/// The `V4L2_BUF_FLAG_*` bits that a buffer can have. Other bits do not survive a change of state.
///
/// Besides the two above these are `MAPPED`, `DONE`, `KEYFRAME`, `PFRAME`, `BFRAME`, `ERROR`,
/// `TIMECODE`, `PREPARED`, `NO_CACHE_INVALIDATE`, `NO_CACHE_CLEAN`, `TIMESTAMP_COPY`,
/// `TSTAMP_SRC_SOE`, `LAST` and `REQUEST_FD`.
pub const V4L2_BUF_FLAGS_KNOWN: u32 = 0x0091_7d7f;

/// `V4L2_BUF_CAP_SUPPORTS_MMAP`.
pub const V4L2_BUF_CAP_SUPPORTS_MMAP: u32 = 0x0000_0001;

/// `V4L2_BUF_CAP_SUPPORTS_ORPHANED_BUFS`.
pub const V4L2_BUF_CAP_SUPPORTS_ORPHANED_BUFS: u32 = 0x0000_0010;

/// `V4L2_FIELD_NONE`: progressive frames.
pub const V4L2_FIELD_NONE: u32 = 1;

/// `V4L2_COLORSPACE_SRGB`.
pub const V4L2_COLORSPACE_SRGB: u32 = 8;

/// `V4L2_FRMSIZE_TYPE_DISCRETE`.
pub const V4L2_FRMSIZE_TYPE_DISCRETE: u32 = 1;

/// `V4L2_FRMIVAL_TYPE_DISCRETE`.
pub const V4L2_FRMIVAL_TYPE_DISCRETE: u32 = 1;

/// `V4L2_CAP_TIMEPERFRAME`: the time per frame is meaningful.
pub const V4L2_CAP_TIMEPERFRAME: u32 = 0x1000;

/// `V4L2_INPUT_TYPE_CAMERA`.
pub const V4L2_INPUT_TYPE_CAMERA: u32 = 2;

/// `V4L2_CTRL_TYPE_INTEGER`.
pub const V4L2_CTRL_TYPE_INTEGER: u32 = 1;

/// `V4L2_CTRL_FLAG_READ_ONLY`.
pub const V4L2_CTRL_FLAG_READ_ONLY: u32 = 0x0004;

/// `V4L2_CTRL_FLAG_NEXT_CTRL`: ask for the first control with a higher id.
pub const V4L2_CTRL_FLAG_NEXT_CTRL: u32 = 0x8000_0000;

/// `V4L2_CID_CAMERA_CLASS_BASE`.
pub const V4L2_CID_CAMERA_CLASS_BASE: u32 = 0x009a_0900;

/// `V4L2_EVENT_CTRL`: a control changed.
pub const V4L2_EVENT_CTRL: u32 = 3;

/// `V4L2_EVENT_SUB_FL_SEND_INITIAL`: send an event on subscription.
pub const V4L2_EVENT_SUB_FL_SEND_INITIAL: u32 = 1;

/// `VIRTIO_MEDIA_MMAP_FLAG_RW`: map the buffer for writing too.
pub const VIRTIO_MEDIA_MMAP_FLAG_RW: u32 = 1;

/// `V4L2_BUF_TYPE_VIDEO_CAPTURE`.
pub const V4L2_BUF_TYPE_VIDEO_CAPTURE: u32 = 1;

/// `V4L2_BUF_TYPE_VIDEO_OUTPUT`.
pub const V4L2_BUF_TYPE_VIDEO_OUTPUT: u32 = 2;

/// `V4L2_BUF_TYPE_VIDEO_OVERLAY`.
pub const V4L2_BUF_TYPE_VIDEO_OVERLAY: u32 = 3;

/// `V4L2_BUF_TYPE_VBI_CAPTURE`.
pub const V4L2_BUF_TYPE_VBI_CAPTURE: u32 = 4;

/// `V4L2_BUF_TYPE_VBI_OUTPUT`.
pub const V4L2_BUF_TYPE_VBI_OUTPUT: u32 = 5;

/// `V4L2_BUF_TYPE_SLICED_VBI_CAPTURE`.
pub const V4L2_BUF_TYPE_SLICED_VBI_CAPTURE: u32 = 6;

/// `V4L2_BUF_TYPE_SLICED_VBI_OUTPUT`.
pub const V4L2_BUF_TYPE_SLICED_VBI_OUTPUT: u32 = 7;

/// `V4L2_BUF_TYPE_VIDEO_OUTPUT_OVERLAY`.
pub const V4L2_BUF_TYPE_VIDEO_OUTPUT_OVERLAY: u32 = 8;

/// `V4L2_BUF_TYPE_VIDEO_CAPTURE_MPLANE`.
pub const V4L2_BUF_TYPE_VIDEO_CAPTURE_MPLANE: u32 = 9;

/// `V4L2_BUF_TYPE_VIDEO_OUTPUT_MPLANE`.
pub const V4L2_BUF_TYPE_VIDEO_OUTPUT_MPLANE: u32 = 10;

/// `V4L2_BUF_TYPE_SDR_CAPTURE`.
pub const V4L2_BUF_TYPE_SDR_CAPTURE: u32 = 11;

/// `V4L2_BUF_TYPE_SDR_OUTPUT`.
pub const V4L2_BUF_TYPE_SDR_OUTPUT: u32 = 12;

/// `V4L2_BUF_TYPE_META_CAPTURE`.
pub const V4L2_BUF_TYPE_META_CAPTURE: u32 = 13;

/// `V4L2_BUF_TYPE_META_OUTPUT`.
pub const V4L2_BUF_TYPE_META_OUTPUT: u32 = 14;

/// `V4L2_MEMORY_MMAP`.
pub const V4L2_MEMORY_MMAP: u32 = 1;

/// `V4L2_MEMORY_USERPTR`.
pub const V4L2_MEMORY_USERPTR: u32 = 2;

/// `V4L2_MEMORY_OVERLAY`.
pub const V4L2_MEMORY_OVERLAY: u32 = 3;

/// `V4L2_MEMORY_DMABUF`.
pub const V4L2_MEMORY_DMABUF: u32 = 4;

/// Queues that a guest can name.
#[derive(Debug, Clone, Copy, PartialEq, Eq, Structural)]
pub enum QueueType {
    /// Single-planar video capture.
    VideoCapture,
    /// Single-planar video output.
    VideoOutput,
    /// Video overlay.
    VideoOverlay,
    /// Raw VBI capture.
    VbiCapture,
    /// Raw VBI output.
    VbiOutput,
    /// Sliced VBI capture.
    SlicedVbiCapture,
    /// Sliced VBI output.
    SlicedVbiOutput,
    /// Video output overlay.
    VideoOutputOverlay,
    /// Multi-planar video capture.
    VideoCaptureMplane,
    /// Multi-planar video output.
    VideoOutputMplane,
    /// Software defined radio capture.
    SdrCapture,
    /// Software defined radio output.
    SdrOutput,
    /// Metadata capture.
    MetaCapture,
    /// Metadata output.
    MetaOutput,
}

impl QueueType {
    /// The number of the queue in the V4L2 ABI.
    pub open spec fn spec_code(self) -> u32 {
        match self {
            QueueType::VideoCapture => V4L2_BUF_TYPE_VIDEO_CAPTURE,
            QueueType::VideoOutput => V4L2_BUF_TYPE_VIDEO_OUTPUT,
            QueueType::VideoOverlay => V4L2_BUF_TYPE_VIDEO_OVERLAY,
            QueueType::VbiCapture => V4L2_BUF_TYPE_VBI_CAPTURE,
            QueueType::VbiOutput => V4L2_BUF_TYPE_VBI_OUTPUT,
            QueueType::SlicedVbiCapture => V4L2_BUF_TYPE_SLICED_VBI_CAPTURE,
            QueueType::SlicedVbiOutput => V4L2_BUF_TYPE_SLICED_VBI_OUTPUT,
            QueueType::VideoOutputOverlay => V4L2_BUF_TYPE_VIDEO_OUTPUT_OVERLAY,
            QueueType::VideoCaptureMplane => V4L2_BUF_TYPE_VIDEO_CAPTURE_MPLANE,
            QueueType::VideoOutputMplane => V4L2_BUF_TYPE_VIDEO_OUTPUT_MPLANE,
            QueueType::SdrCapture => V4L2_BUF_TYPE_SDR_CAPTURE,
            QueueType::SdrOutput => V4L2_BUF_TYPE_SDR_OUTPUT,
            QueueType::MetaCapture => V4L2_BUF_TYPE_META_CAPTURE,
            QueueType::MetaOutput => V4L2_BUF_TYPE_META_OUTPUT,
        }
    }

    /// The number of the queue in the V4L2 ABI.
    pub fn code(self) -> (code: u32)
        ensures
            code == self.spec_code(),
    {
        match self {
            QueueType::VideoCapture => V4L2_BUF_TYPE_VIDEO_CAPTURE,
            QueueType::VideoOutput => V4L2_BUF_TYPE_VIDEO_OUTPUT,
            QueueType::VideoOverlay => V4L2_BUF_TYPE_VIDEO_OVERLAY,
            QueueType::VbiCapture => V4L2_BUF_TYPE_VBI_CAPTURE,
            QueueType::VbiOutput => V4L2_BUF_TYPE_VBI_OUTPUT,
            QueueType::SlicedVbiCapture => V4L2_BUF_TYPE_SLICED_VBI_CAPTURE,
            QueueType::SlicedVbiOutput => V4L2_BUF_TYPE_SLICED_VBI_OUTPUT,
            QueueType::VideoOutputOverlay => V4L2_BUF_TYPE_VIDEO_OUTPUT_OVERLAY,
            QueueType::VideoCaptureMplane => V4L2_BUF_TYPE_VIDEO_CAPTURE_MPLANE,
            QueueType::VideoOutputMplane => V4L2_BUF_TYPE_VIDEO_OUTPUT_MPLANE,
            QueueType::SdrCapture => V4L2_BUF_TYPE_SDR_CAPTURE,
            QueueType::SdrOutput => V4L2_BUF_TYPE_SDR_OUTPUT,
            QueueType::MetaCapture => V4L2_BUF_TYPE_META_CAPTURE,
            QueueType::MetaOutput => V4L2_BUF_TYPE_META_OUTPUT,
        }
    }
}

/// Kinds of memory that can back a buffer.
#[derive(Debug, Clone, Copy, PartialEq, Eq, Structural)]
pub enum MemoryType {
    /// Memory of the device, mapped into the guest.
    Mmap,
    /// Memory of the guest.
    UserPtr,
    /// Overlay memory.
    Overlay,
    /// Memory shared by a DMABUF descriptor.
    DmaBuf,
}

impl MemoryType {
    /// The number of the memory type in the V4L2 ABI.
    pub open spec fn spec_code(self) -> u32 {
        match self {
            MemoryType::Mmap => V4L2_MEMORY_MMAP,
            MemoryType::UserPtr => V4L2_MEMORY_USERPTR,
            MemoryType::Overlay => V4L2_MEMORY_OVERLAY,
            MemoryType::DmaBuf => V4L2_MEMORY_DMABUF,
        }
    }

    /// The number of the memory type in the V4L2 ABI.
    pub fn code(self) -> (code: u32)
        ensures
            code == self.spec_code(),
    {
        match self {
            MemoryType::Mmap => V4L2_MEMORY_MMAP,
            MemoryType::UserPtr => V4L2_MEMORY_USERPTR,
            MemoryType::Overlay => V4L2_MEMORY_OVERLAY,
            MemoryType::DmaBuf => V4L2_MEMORY_DMABUF,
        }
    }
}

/// Time of a frame: seconds and microseconds.
#[derive(Debug, Clone, Copy, PartialEq, Eq, Structural)]
pub struct Timeval {
    /// Seconds.
    pub tv_sec: i64,
    /// Microseconds.
    pub tv_usec: i64,
}

/// What the guest is told of a single-planar `MMAP` buffer.
#[derive(Debug, Clone, Copy, PartialEq, Eq, Structural)]
pub struct V4l2Buffer {
    /// Index of the buffer in its session.
    pub index: u32,
    /// Queue of the buffer.
    pub queue: QueueType,
    /// Memory backing the buffer.
    pub memory: MemoryType,
    /// `V4L2_BUF_FLAG_*` bits.
    pub flags: u32,
    /// Field order, `V4L2_FIELD_*`.
    pub field: u32,
    /// Time of the frame.
    pub timestamp: Timeval,
    /// Sequence number of the frame.
    pub sequence: u32,
    /// Bytes of the buffer that hold data.
    pub bytesused: u32,
    /// Size of the buffer.
    pub length: u32,
    /// Offset by which the guest maps the buffer.
    pub mem_offset: u32,
}

/// Description of a pixel format.
#[derive(Debug, Clone, Copy, PartialEq, Eq, Structural)]
pub struct FmtDesc {
    /// Index of the format.
    pub index: u32,
    /// Number of the queue.
    pub type_: u32,
    /// Fourcc of the format.
    pub pixelformat: u32,
}

/// Single-planar frame format.
#[derive(Debug, Clone, Copy, PartialEq, Eq, Structural)]
pub struct PixFormat {
    /// Width in pixels.
    pub width: u32,
    /// Height in pixels.
    pub height: u32,
    /// Fourcc of the format.
    pub pixelformat: u32,
    /// Field order, `V4L2_FIELD_*`.
    pub field: u32,
    /// Bytes per line of the first plane.
    pub bytesperline: u32,
    /// Bytes per frame.
    pub sizeimage: u32,
    /// Color space, `V4L2_COLORSPACE_*`.
    pub colorspace: u32,
}

/// Frame format of a queue.
#[derive(Debug, Clone, Copy, PartialEq, Eq, Structural)]
pub struct Format {
    /// Number of the queue.
    pub type_: u32,
    /// The format.
    pub pix: PixFormat,
}

/// A discrete frame size.
#[derive(Debug, Clone, Copy, PartialEq, Eq, Structural)]
pub struct FrmSizeEnum {
    /// Index of the frame size.
    pub index: u32,
    /// Fourcc of the format it belongs to.
    pub pixel_format: u32,
    /// `V4L2_FRMSIZE_TYPE_*`.
    pub type_: u32,
    /// Width in pixels.
    pub width: u32,
    /// Height in pixels.
    pub height: u32,
}

/// A fraction of seconds.
#[derive(Debug, Clone, Copy, PartialEq, Eq, Structural)]
pub struct Fract {
    /// Numerator.
    pub numerator: u32,
    /// Denominator.
    pub denominator: u32,
}

/// A discrete frame interval.
#[derive(Debug, Clone, Copy, PartialEq, Eq, Structural)]
pub struct FrmIvalEnum {
    /// Index of the frame interval.
    pub index: u32,
    /// Fourcc of the format it belongs to.
    pub pixel_format: u32,
    /// Width in pixels.
    pub width: u32,
    /// Height in pixels.
    pub height: u32,
    /// `V4L2_FRMIVAL_TYPE_*`.
    pub type_: u32,
    /// Time per frame.
    pub discrete: Fract,
}

/// Capture parameters.
#[derive(Debug, Clone, Copy, PartialEq, Eq, Structural)]
pub struct CaptureParm {
    /// Supported modes, `V4L2_CAP_*`.
    pub capability: u32,
    /// Current mode.
    pub capturemode: u32,
    /// Time per frame.
    pub timeperframe: Fract,
    /// Driver-specific extensions.
    pub extendedmode: u32,
    /// Buffers used for `read`.
    pub readbuffers: u32,
}

/// Streaming parameters of a capture queue.
#[derive(Debug, Clone, Copy, PartialEq, Eq, Structural)]
pub struct StreamParm {
    /// Number of the queue.
    pub type_: u32,
    /// The parameters.
    pub capture: CaptureParm,
}

/// Answer to a request for buffers.
#[derive(Debug, Clone, Copy, PartialEq, Eq, Structural)]
pub struct RequestBuffers {
    /// Buffers that were allocated.
    pub count: u32,
    /// Number of the queue.
    pub type_: u32,
    /// Number of the memory type.
    pub memory: u32,
    /// `V4L2_BUF_CAP_*` bits.
    pub capabilities: u32,
}

/// Description of a video input.
#[derive(Debug, Clone, Copy, PartialEq, Eq)]
pub struct Input {
    /// Index of the input.
    pub index: u32,
    /// Name, padded with zeros.
    pub name: [u8; 32],
    /// `V4L2_INPUT_TYPE_*`.
    pub type_: u32,
}

/// Description of a control.
#[derive(Debug, Clone, Copy, PartialEq, Eq)]
pub struct QueryExtCtrl {
    /// Id of the control.
    pub id: u32,
    /// `V4L2_CTRL_TYPE_*`.
    pub type_: u32,
    /// Name, padded with zeros.
    pub name: [u8; 32],
    /// Lowest value.
    pub minimum: i64,
    /// Highest value.
    pub maximum: i64,
    /// Step between values.
    pub step: u64,
    /// Default value.
    pub default_value: i64,
    /// `V4L2_CTRL_FLAG_*` bits.
    pub flags: u32,
    /// Size of one element in bytes.
    pub elem_size: u32,
    /// Number of elements.
    pub elems: u32,
}

/// One control of a list that the guest reads or sets.
#[derive(Debug, Clone, Copy, PartialEq, Eq, Structural)]
pub struct ExtControl {
    /// Id of the control.
    pub id: u32,
    /// Its value.
    pub value: i32,
}

/// What the guest says of a list of controls, and is told of its failure.
#[derive(Debug, Clone, Copy, PartialEq, Eq, Structural)]
pub struct ExtControls {
    /// Length of the list.
    pub count: u32,
    /// Index of the control that failed, or `count` where the whole list is to blame.
    pub error_idx: u32,
}

/// Events that a guest can subscribe to.
#[derive(Debug, Clone, Copy, PartialEq, Eq, Structural)]
pub enum EventType {
    /// Vertical sync.
    VSync,
    /// End of stream.
    Eos,
    /// Change of the control with this id.
    Ctrl(u32),
    /// Frame sync.
    FrameSync,
    /// Change of the source with this id.
    SourceChange(u32),
    /// Motion detection.
    MotionDet,
}

/// Event that tells a session of a control.
#[derive(Debug, Clone, Copy, PartialEq, Eq, Structural)]
pub struct CtrlEvent {
    /// Session the event is for.
    pub session_id: u32,
    /// `V4L2_EVENT_*`.
    pub type_: u32,
    /// Id of the control.
    pub id: u32,
}

/// Event that hands a filled buffer back to its session.
#[derive(Debug, Clone, Copy, PartialEq, Eq, Structural)]
pub struct DequeueBufferEvent {
    /// Session the event is for.
    pub session_id: u32,
    /// The filled buffer.
    pub buffer: V4l2Buffer,
}

/// `text`, one byte per character, padded with zeros to 32 bytes.
pub open spec fn padded_name(text: Seq<char>) -> Seq<u8> {
    Seq::new(
        32,
        |i: int|
            if i < text.len() {
                text[i] as u8
            } else {
                0u8
            },
    )
}

/// Writes `text` at the start of 32 bytes that are zero otherwise.
pub fn pad_name(text: &str) -> (name: [u8; 32])
    requires
        text.is_ascii(),
        text@.len() <= 32,
    ensures
        name@ == padded_name(text@),
{
    let mut name: [u8; 32] = [0u8;32];
    let bytes = text.as_bytes();
    let mut i: usize = 0;
    while i < bytes.len()
        invariant
            text@.len() <= 32,
            bytes@ == Seq::new(text@.len(), |j: int| text@[j] as u8),
            i <= bytes@.len(),
            name@.len() == 32,
            forall|j: int| 0 <= j < 32 ==> #[trigger] name@[j] == (if j < i {
                text@[j] as u8
            } else {
                0u8
            }),
        decreases bytes@.len() - i,
    {
        name[i] = bytes[i];
        i += 1;
    }
    name
}

} // verus!
