//! Format, frame rate and input requests of the guest.
//!
//! The camera has a single format, frame size, frame rate and input, whatever the guest asks for.

use vstd::prelude::*;

use crate::camera::EmulatedCamera;
use crate::errno::{einval, IoctlResult, EINVAL};
use crate::frame::{BUFFER_SIZE, BYTES_PER_LINE, FRAME_RATE, HEIGHT, PIXELFORMAT, WIDTH};
use crate::v4l2::{
    pad_name, padded_name, CaptureParm, FmtDesc, Format, Fract, FrmIvalEnum, FrmSizeEnum, Input,
    PixFormat, QueueType, StreamParm, V4L2_CAP_TIMEPERFRAME, V4L2_COLORSPACE_SRGB, V4L2_FIELD_NONE,
    V4L2_FRMIVAL_TYPE_DISCRETE, V4L2_FRMSIZE_TYPE_DISCRETE, V4L2_INPUT_TYPE_CAMERA,
};

verus! {

/// The description of the format of the camera, for a queue.
pub open spec fn spec_default_fmtdesc(queue: QueueType) -> FmtDesc {
    FmtDesc { index: 0, type_: queue.spec_code(), pixelformat: PIXELFORMAT }
}

/// The format of the camera, for a queue.
pub open spec fn spec_default_fmt(queue: QueueType) -> Format {
    Format {
        type_: queue.spec_code(),
        pix: PixFormat {
            width: WIDTH,
            height: HEIGHT,
            pixelformat: PIXELFORMAT,
            field: V4L2_FIELD_NONE,
            bytesperline: BYTES_PER_LINE,
            sizeimage: BUFFER_SIZE,
            colorspace: V4L2_COLORSPACE_SRGB,
        },
    }
}

/// How long the camera takes for a frame.
pub open spec fn frame_interval() -> Fract {
    Fract { numerator: 1, denominator: FRAME_RATE }
}

/// The answer to a request about the format of a queue.
pub open spec fn format_answer(queue: QueueType) -> IoctlResult<Format> {
    if queue == QueueType::VideoCapture {
        Ok(spec_default_fmt(queue))
    } else {
        Err(EINVAL)
    }
}

/// The answer to a request for the format numbered `index`.
pub open spec fn fmtdesc_answer(queue: QueueType, index: u32) -> IoctlResult<FmtDesc> {
    if queue == QueueType::VideoCapture && index == 0 {
        Ok(spec_default_fmtdesc(queue))
    } else {
        Err(EINVAL)
    }
}

/// The answer to a request for the frame size numbered `index`.
pub open spec fn framesize_answer(index: u32, pixel_format: u32) -> IoctlResult<FrmSizeEnum> {
    if index == 0 && pixel_format == PIXELFORMAT {
        Ok(
            FrmSizeEnum {
                index: 0,
                pixel_format: PIXELFORMAT,
                type_: V4L2_FRMSIZE_TYPE_DISCRETE,
                width: WIDTH,
                height: HEIGHT,
            },
        )
    } else {
        Err(EINVAL)
    }
}

/// The answer to a request for the frame interval numbered `index`.
pub open spec fn frameinterval_answer(
    index: u32,
    pixel_format: u32,
    width: u32,
    height: u32,
) -> IoctlResult<FrmIvalEnum> {
    if index == 0 && pixel_format == PIXELFORMAT && width == WIDTH && height == HEIGHT {
        Ok(
            FrmIvalEnum {
                index: 0,
                pixel_format: PIXELFORMAT,
                width: WIDTH,
                height: HEIGHT,
                type_: V4L2_FRMIVAL_TYPE_DISCRETE,
                discrete: frame_interval(),
            },
        )
    } else {
        Err(EINVAL)
    }
}

/// The streaming parameters with the fixed frame rate of the camera in place.
pub open spec fn with_frame_interval(parm: StreamParm) -> StreamParm {
    StreamParm {
        capture: CaptureParm {
            capability: V4L2_CAP_TIMEPERFRAME,
            timeperframe: frame_interval(),
            ..parm.capture
        },
        ..parm
    }
}

/// The streaming parameters of a queue before anything is filled in.
pub open spec fn blank_parm(queue: QueueType) -> StreamParm {
    StreamParm {
        type_: queue.spec_code(),
        capture: CaptureParm {
            capability: 0,
            capturemode: 0,
            timeperframe: Fract { numerator: 0, denominator: 0 },
            extendedmode: 0,
            readbuffers: 0,
        },
    }
}

/// Describes the format of the camera.
pub fn default_fmtdesc(queue: QueueType) -> (desc: FmtDesc)
    ensures
        desc == spec_default_fmtdesc(queue),
{
    FmtDesc { index: 0, type_: queue.code(), pixelformat: PIXELFORMAT }
}

/// Gives the format of the camera.
pub fn default_fmt(queue: QueueType) -> (format: Format)
    ensures
        format == spec_default_fmt(queue),
{
    let pix = PixFormat {
        width: WIDTH,
        height: HEIGHT,
        pixelformat: PIXELFORMAT,
        field: V4L2_FIELD_NONE,
        bytesperline: BYTES_PER_LINE,
        sizeimage: BUFFER_SIZE,
        colorspace: V4L2_COLORSPACE_SRGB,
    };
    Format { type_: queue.code(), pix }
}

impl<Q, M, P> EmulatedCamera<Q, M, P> {
    /// Describes the format numbered `index`.
    pub fn enum_fmt(&self, queue: QueueType, index: u32) -> (r: IoctlResult<FmtDesc>)
        ensures
            r == fmtdesc_answer(queue, index),
    {
        if queue != QueueType::VideoCapture {
            return Err(einval());
        }
        if index > 0 {
            return Err(einval());
        }
        Ok(default_fmtdesc(queue))
    }

    /// Gives the format of a queue.
    pub fn g_fmt(&self, queue: QueueType) -> (r: IoctlResult<Format>)
        ensures
            r == format_answer(queue),
    {
        if queue != QueueType::VideoCapture {
            return Err(einval());
        }
        Ok(default_fmt(queue))
    }

    /// Sets the format of a queue: it is the format of the camera, whatever is asked for.
    pub fn s_fmt(&self, queue: QueueType, _format: Format) -> (r: IoctlResult<Format>)
        ensures
            r == format_answer(queue),
    {
        if queue != QueueType::VideoCapture {
            return Err(einval());
        }
        Ok(default_fmt(queue))
    }

    /// Says which format [`Self::s_fmt`] would set.
    pub fn try_fmt(&self, queue: QueueType, _format: Format) -> (r: IoctlResult<Format>)
        ensures
            r == format_answer(queue),
    {
        if queue != QueueType::VideoCapture {
            return Err(einval());
        }
        Ok(default_fmt(queue))
    }

    /// Gives the frame size numbered `index`.
    pub fn enum_framesizes(&self, index: u32, pixel_format: u32) -> (r: IoctlResult<FrmSizeEnum>)
        ensures
            r == framesize_answer(index, pixel_format),
    {
        if index > 0 {
            return Err(einval());
        }
        if pixel_format != PIXELFORMAT {
            return Err(einval());
        }
        Ok(
            FrmSizeEnum {
                index,
                pixel_format,
                type_: V4L2_FRMSIZE_TYPE_DISCRETE,
                width: WIDTH,
                height: HEIGHT,
            },
        )
    }

    /// Gives the frame interval numbered `index`.
    pub fn enum_frameintervals(&self, index: u32, pixel_format: u32, width: u32, height: u32) -> (r:
        IoctlResult<FrmIvalEnum>)
        ensures
            r == frameinterval_answer(index, pixel_format, width, height),
    {
        if index > 0 {
            return Err(einval());
        }
        if pixel_format != PIXELFORMAT {
            return Err(einval());
        }
        if width != WIDTH || height != HEIGHT {
            return Err(einval());
        }
        Ok(
            FrmIvalEnum {
                index,
                pixel_format,
                width,
                height,
                type_: V4L2_FRMIVAL_TYPE_DISCRETE,
                discrete: Fract { numerator: 1, denominator: FRAME_RATE },
            },
        )
    }

    /// Gives the streaming parameters of a queue.
    pub fn g_parm(&self, queue: QueueType) -> (r: IoctlResult<StreamParm>)
        ensures
            queue == QueueType::VideoCapture ==> r == Ok::<StreamParm, i32>(
                with_frame_interval(blank_parm(queue)),
            ),
            queue != QueueType::VideoCapture ==> r == Err::<StreamParm, i32>(EINVAL),
    {
        if queue != QueueType::VideoCapture {
            return Err(einval());
        }
        Ok(
            StreamParm {
                type_: queue.code(),
                capture: CaptureParm {
                    capability: V4L2_CAP_TIMEPERFRAME,
                    capturemode: 0,
                    timeperframe: Fract { numerator: 1, denominator: FRAME_RATE },
                    extendedmode: 0,
                    readbuffers: 0,
                },
            },
        )
    }

    /// Sets the streaming parameters of a queue: the frame rate stays the fixed one, ignoring
    /// what the guest asked for.
    pub fn s_parm(&self, parm: StreamParm) -> (r: IoctlResult<StreamParm>)
        ensures
            parm.type_ == QueueType::VideoCapture.spec_code() ==> r == Ok::<StreamParm, i32>(
                with_frame_interval(parm),
            ),
            parm.type_ != QueueType::VideoCapture.spec_code() ==> r == Err::<StreamParm, i32>(
                EINVAL,
            ),
    {
        if parm.type_ != QueueType::VideoCapture.code() {
            return Err(einval());
        }
        let mut parm: StreamParm = parm;
        parm.capture.capability = V4L2_CAP_TIMEPERFRAME;
        parm.capture.timeperframe = Fract { numerator: 1, denominator: FRAME_RATE };
        Ok(parm)
    }

    /// Gives the current input: there is only one.
    pub fn g_input(&self) -> (r: IoctlResult<i32>)
        ensures
            r == Ok::<i32, i32>(0),
    {
        Ok(0)
    }

    /// Selects an input: there is only one.
    pub fn s_input(&self, input: i32) -> (r: IoctlResult<i32>)
        ensures
            input == 0 ==> r == Ok::<i32, i32>(0),
            input != 0 ==> r == Err::<i32, i32>(EINVAL),
    {
        if input != 0 {
            Err(einval())
        } else {
            Ok(0)
        }
    }

    /// Describes the input numbered `index`.
    pub fn enuminput(&self, index: u32) -> (r: IoctlResult<Input>)
        ensures
            index == 0 ==> r is Ok && r->Ok_0.index == 0 && r->Ok_0.name@ == padded_name("Default"@)
                && r->Ok_0.type_ == V4L2_INPUT_TYPE_CAMERA,
            index != 0 ==> r == Err::<Input, i32>(EINVAL),
    {
        if index != 0 {
            return Err(einval());
        }
        proof {
            reveal_strlit("Default");
        }
        Ok(Input { index: 0, name: pad_name("Default"), type_: V4L2_INPUT_TYPE_CAMERA })
    }
}

/// What the camera enumerates leads from one request to the next: the format it lists first is
/// the format it is set to, that format has the one frame size that frames are made of, and that
/// size has the one frame interval that the streaming parameters report. There is no second
/// format, size or interval.
pub proof fn lemma_enumeration_is_consistent(index: u32)
    ensures
        fmtdesc_answer(QueueType::VideoCapture, 0) is Ok,
        format_answer(QueueType::VideoCapture) is Ok,
        ({
            let desc = fmtdesc_answer(QueueType::VideoCapture, 0)->Ok_0;
            let format = format_answer(QueueType::VideoCapture)->Ok_0;
            let size = framesize_answer(0, desc.pixelformat)->Ok_0;
            let interval = frameinterval_answer(
                0,
                desc.pixelformat,
                size.width,
                size.height,
            )->Ok_0;
            &&& desc.pixelformat == format.pix.pixelformat
            &&& framesize_answer(0, desc.pixelformat) is Ok
            &&& size.width == format.pix.width && size.height == format.pix.height
            &&& 2 * format.pix.sizeimage == 3 * (size.width * size.height)
            &&& frameinterval_answer(0, desc.pixelformat, size.width, size.height) is Ok
            &&& interval.discrete == with_frame_interval(
                blank_parm(QueueType::VideoCapture),
            ).capture.timeperframe
            &&& index > 0 ==> fmtdesc_answer(QueueType::VideoCapture, index) is Err
            &&& index > 0 ==> framesize_answer(index, desc.pixelformat) is Err
            &&& index > 0 ==> frameinterval_answer(
                index,
                desc.pixelformat,
                size.width,
                size.height,
            ) is Err
        }),
{
}

/// Whatever streaming parameters the guest sets, it gets the frame rate of the camera, and
/// setting what it got changes nothing.
pub proof fn lemma_frame_rate_is_fixed(parm: StreamParm)
    ensures
        with_frame_interval(parm).capture.timeperframe == frame_interval(),
        with_frame_interval(with_frame_interval(parm)) == with_frame_interval(parm),
{
}

} // verus!
