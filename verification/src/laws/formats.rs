//! Formats, frame rate and inputs.

use vstd::prelude::*;

use crate::camera::EmulatedCamera;
use crate::errno::IoctlResult;
use crate::formats::{default_fmt, default_fmtdesc};
use crate::v4l2::{
    CaptureParm, FmtDesc, Format, Fract, FrmIvalEnum, FrmSizeEnum, Input, MemoryType, PixFormat,
    QueueType, StreamParm,
};

verus! {

/// Whether `format` is progressive `YU12` video of 640 by 480 pixels in sRGB, with 640 bytes to a
/// line and 460800 to a frame.
pub open spec fn is_camera_format(format: Format) -> bool {
    format.pix == PixFormat {
        width: 640,
        height: 480,
        pixelformat: 0x3231_5559,
        field: 1,
        bytesperline: 640,
        sizeimage: 460_800,
        colorspace: 8,
    }
}

/// The queues are numbered from 1 to 14.
pub proof fn lemma_queue_codes(queue: QueueType, code: u32)
    requires
        call_ensures(QueueType::code, (queue,), code),
    ensures
        match code {
            1 => queue == QueueType::VideoCapture,
            2 => queue == QueueType::VideoOutput,
            3 => queue == QueueType::VideoOverlay,
            4 => queue == QueueType::VbiCapture,
            5 => queue == QueueType::VbiOutput,
            6 => queue == QueueType::SlicedVbiCapture,
            7 => queue == QueueType::SlicedVbiOutput,
            8 => queue == QueueType::VideoOutputOverlay,
            9 => queue == QueueType::VideoCaptureMplane,
            10 => queue == QueueType::VideoOutputMplane,
            11 => queue == QueueType::SdrCapture,
            12 => queue == QueueType::SdrOutput,
            13 => queue == QueueType::MetaCapture,
            14 => queue == QueueType::MetaOutput,
            _ => false,
        },
{
}

/// The memory types are numbered from 1 to 4.
pub proof fn lemma_memory_codes(memory: MemoryType, code: u32)
    requires
        call_ensures(MemoryType::code, (memory,), code),
    ensures
        match code {
            1 => memory == MemoryType::Mmap,
            2 => memory == MemoryType::UserPtr,
            3 => memory == MemoryType::Overlay,
            4 => memory == MemoryType::DmaBuf,
            _ => false,
        },
{
}

/// The default format of a queue is that of the camera, under the number of the queue.
pub proof fn lemma_default_format(queue: QueueType, code: u32, desc: FmtDesc, format: Format)
    requires
        call_ensures(QueueType::code, (queue,), code),
        call_ensures(default_fmtdesc, (queue,), desc),
        call_ensures(default_fmt, (queue,), format),
    ensures
        desc.index == 0,
        desc.type_ == code,
        desc.pixelformat == 0x3231_5559,
        format.type_ == code,
        is_camera_format(format),
{
}

/// The capture queue has one format, `YU12`, and no other queue has any.
pub proof fn lemma_one_format_is_listed<Q, M, P>(
    camera: &EmulatedCamera<Q, M, P>,
    queue: QueueType,
    index: u32,
    r: IoctlResult<FmtDesc>,
)
    requires
        call_ensures(EmulatedCamera::<Q, M, P>::enum_fmt, (camera, queue, index), r),
    ensures
        r is Ok <==> queue == QueueType::VideoCapture && index == 0,
        r is Ok ==> r->Ok_0 == (FmtDesc { index: 0, type_: 1, pixelformat: 0x3231_5559 }),
        r is Err ==> r->Err_0 == 22,
{
}

/// Whatever format the guest asks for, it gets that of the camera, whether it reads, sets or tries
/// one; on every other queue than the capture queue it is told `EINVAL`.
pub proof fn lemma_format_is_fixed<Q, M, P>(
    camera: &EmulatedCamera<Q, M, P>,
    queue: QueueType,
    wanted: Format,
    got: IoctlResult<Format>,
    set: IoctlResult<Format>,
    tried: IoctlResult<Format>,
)
    requires
        call_ensures(EmulatedCamera::<Q, M, P>::g_fmt, (camera, queue), got),
        call_ensures(EmulatedCamera::<Q, M, P>::s_fmt, (camera, queue, wanted), set),
        call_ensures(EmulatedCamera::<Q, M, P>::try_fmt, (camera, queue, wanted), tried),
    ensures
        got is Ok <==> queue == QueueType::VideoCapture,
        got is Ok ==> got->Ok_0.type_ == 1 && is_camera_format(got->Ok_0),
        got is Err ==> got->Err_0 == 22,
        set == got,
        tried == got,
{
}

/// `YU12` has one frame size, 640 by 480, and no other format has any.
pub proof fn lemma_one_frame_size_is_listed<Q, M, P>(
    camera: &EmulatedCamera<Q, M, P>,
    index: u32,
    pixel_format: u32,
    r: IoctlResult<FrmSizeEnum>,
)
    requires
        call_ensures(
            EmulatedCamera::<Q, M, P>::enum_framesizes,
            (camera, index, pixel_format),
            r,
        ),
    ensures
        r is Ok <==> index == 0 && pixel_format == 0x3231_5559,
        r is Ok ==> r->Ok_0 == (FrmSizeEnum {
            index: 0,
            pixel_format: 0x3231_5559,
            type_: 1,
            width: 640,
            height: 480,
        }),
        r is Err ==> r->Err_0 == 22,
{
}

/// Frames of that size have one interval, a thirtieth of a second, and no others have any.
pub proof fn lemma_one_frame_interval_is_listed<Q, M, P>(
    camera: &EmulatedCamera<Q, M, P>,
    index: u32,
    pixel_format: u32,
    width: u32,
    height: u32,
    r: IoctlResult<FrmIvalEnum>,
)
    requires
        call_ensures(
            EmulatedCamera::<Q, M, P>::enum_frameintervals,
            (camera, index, pixel_format, width, height),
            r,
        ),
    ensures
        r is Ok <==> index == 0 && pixel_format == 0x3231_5559 && width == 640 && height == 480,
        r is Ok ==> r->Ok_0 == (FrmIvalEnum {
            index: 0,
            pixel_format: 0x3231_5559,
            width: 640,
            height: 480,
            type_: 1,
            discrete: Fract { numerator: 1, denominator: 30 },
        }),
        r is Err ==> r->Err_0 == 22,
{
}

/// The time per frame is a thirtieth of a second, whether the guest reads it or sets another one;
/// setting the parameters keeps all else that the guest asked for. On every other queue than the
/// capture queue it is told `EINVAL`.
pub proof fn lemma_time_per_frame_is_fixed<Q, M, P>(
    camera: &EmulatedCamera<Q, M, P>,
    queue: QueueType,
    got: IoctlResult<StreamParm>,
    wanted: StreamParm,
    set: IoctlResult<StreamParm>,
)
    requires
        call_ensures(EmulatedCamera::<Q, M, P>::g_parm, (camera, queue), got),
        call_ensures(EmulatedCamera::<Q, M, P>::s_parm, (camera, wanted), set),
    ensures
        got is Ok <==> queue == QueueType::VideoCapture,
        got is Ok ==> got->Ok_0 == (StreamParm {
            type_: 1,
            capture: CaptureParm {
                capability: 0x1000,
                capturemode: 0,
                timeperframe: Fract { numerator: 1, denominator: 30 },
                extendedmode: 0,
                readbuffers: 0,
            },
        }),
        got is Err ==> got->Err_0 == 22,
        set is Ok <==> wanted.type_ == 1,
        set is Ok ==> {
            let granted = set->Ok_0;
            &&& granted.type_ == 1
            &&& granted.capture.capability == 0x1000
            &&& granted.capture.timeperframe.numerator == 1
            &&& granted.capture.timeperframe.denominator == 30
            &&& granted.capture.capturemode == wanted.capture.capturemode
            &&& granted.capture.extendedmode == wanted.capture.extendedmode
            &&& granted.capture.readbuffers == wanted.capture.readbuffers
        },
        set is Err ==> set->Err_0 == 22,
{
}

/// There is one input, a camera with the number 0 and the name "Default", which is always the
/// selected one.
pub proof fn lemma_one_input<Q, M, P>(
    camera: &EmulatedCamera<Q, M, P>,
    got: IoctlResult<i32>,
    input: i32,
    set: IoctlResult<i32>,
    index: u32,
    r: IoctlResult<Input>,
)
    requires
        call_ensures(EmulatedCamera::<Q, M, P>::g_input, (camera,), got),
        call_ensures(EmulatedCamera::<Q, M, P>::s_input, (camera, input), set),
        call_ensures(EmulatedCamera::<Q, M, P>::enuminput, (camera, index), r),
    ensures
        got == Ok::<i32, i32>(0),
        set is Ok <==> input == 0,
        set is Ok ==> set->Ok_0 == 0,
        set is Err ==> set->Err_0 == 22,
        r is Ok <==> index == 0,
        r is Ok ==> {
            &&& r->Ok_0.index == 0
            &&& r->Ok_0.type_ == 2
            &&& r->Ok_0.name@.len() == 32
            &&& r->Ok_0.name@.take(7) == seq![68u8, 101, 102, 97, 117, 108, 116]
            &&& forall|i: int| 7 <= i < 32 ==> #[trigger] r->Ok_0.name@[i] == 0
        },
        r is Err ==> r->Err_0 == 22,
{
    reveal_strlit("Default");
    if r is Ok {
        assert(r->Ok_0.name@.take(7) =~= seq![68u8, 101, 102, 97, 117, 108, 116]);
    }
}

} // verus!
