use emulated_camera::camera::EmulatedCamera;
use emulated_camera::controls::CID_LENS_FACING;
use emulated_camera::errno::{EACCES, EBUSY, EINVAL, ENOMEM};
use emulated_camera::lens::LensFacing;
use emulated_camera::v4l2::{
    pad_name, CaptureParm, CtrlEvent, EventType, ExtControl, ExtControls, FmtDesc, Format, Fract,
    FrmIvalEnum, FrmSizeEnum, Input, MemoryType, PixFormat, QueryExtCtrl, QueueType, StreamParm,
};

type Camera = EmulatedCamera<(), (), String>;

const YU12: u32 = 0x3231_5559;

fn camera(lens_facing: LensFacing) -> Camera {
    EmulatedCamera::new((), (), lens_facing, None)
}

fn default_format() -> Format {
    Format {
        type_: 1,
        pix: PixFormat {
            width: 640,
            height: 480,
            pixelformat: YU12,
            field: 1,
            bytesperline: 640,
            sizeimage: 460_800,
            colorspace: 8,
        },
    }
}

#[test]
fn error_codes_are_those_of_libc() {
    assert_eq!(EINVAL, libc::EINVAL);
    assert_eq!(EBUSY, libc::EBUSY);
    assert_eq!(ENOMEM, libc::ENOMEM);
    assert_eq!(EACCES, libc::EACCES);
}

#[test]
fn queues_and_memories_have_their_codes() {
    let queues = [
        QueueType::VideoCapture,
        QueueType::VideoOutput,
        QueueType::VideoOverlay,
        QueueType::VbiCapture,
        QueueType::VbiOutput,
        QueueType::SlicedVbiCapture,
        QueueType::SlicedVbiOutput,
        QueueType::VideoOutputOverlay,
        QueueType::VideoCaptureMplane,
        QueueType::VideoOutputMplane,
        QueueType::SdrCapture,
        QueueType::SdrOutput,
        QueueType::MetaCapture,
        QueueType::MetaOutput,
    ];
    for (i, queue) in queues.into_iter().enumerate() {
        assert_eq!(queue.code() as usize, i + 1);
    }
    let memories = [
        MemoryType::Mmap,
        MemoryType::UserPtr,
        MemoryType::Overlay,
        MemoryType::DmaBuf,
    ];
    for (i, memory) in memories.into_iter().enumerate() {
        assert_eq!(memory.code() as usize, i + 1);
    }
}

#[test]
fn one_format_is_enumerated() {
    let camera = camera(LensFacing::Front);
    assert_eq!(
        camera.enum_fmt(QueueType::VideoCapture, 0),
        Ok(FmtDesc { index: 0, type_: 1, pixelformat: YU12 })
    );
    assert_eq!(camera.enum_fmt(QueueType::VideoCapture, 1), Err(EINVAL));
    assert_eq!(camera.enum_fmt(QueueType::VideoOutput, 0), Err(EINVAL));
}

#[test]
fn format_is_fixed() {
    let camera = camera(LensFacing::Front);
    let mut wanted = default_format();
    wanted.pix.width = 1920;
    assert_eq!(camera.g_fmt(QueueType::VideoCapture), Ok(default_format()));
    assert_eq!(camera.s_fmt(QueueType::VideoCapture, wanted), Ok(default_format()));
    assert_eq!(camera.try_fmt(QueueType::VideoCapture, wanted), Ok(default_format()));
    assert_eq!(camera.g_fmt(QueueType::VbiCapture), Err(EINVAL));
    assert_eq!(camera.s_fmt(QueueType::VideoCaptureMplane, wanted), Err(EINVAL));
    assert_eq!(camera.try_fmt(QueueType::VideoOutput, wanted), Err(EINVAL));
}

#[test]
fn one_frame_size_is_enumerated() {
    let camera = camera(LensFacing::Front);
    assert_eq!(
        camera.enum_framesizes(0, YU12),
        Ok(FrmSizeEnum { index: 0, pixel_format: YU12, type_: 1, width: 640, height: 480 })
    );
    assert_eq!(camera.enum_framesizes(1, YU12), Err(EINVAL));
    assert_eq!(camera.enum_framesizes(0, YU12 + 1), Err(EINVAL));
}

#[test]
fn one_frame_interval_is_enumerated() {
    let camera = camera(LensFacing::Front);
    assert_eq!(
        camera.enum_frameintervals(0, YU12, 640, 480),
        Ok(FrmIvalEnum {
            index: 0,
            pixel_format: YU12,
            width: 640,
            height: 480,
            type_: 1,
            discrete: Fract { numerator: 1, denominator: 30 },
        })
    );
    assert_eq!(camera.enum_frameintervals(1, YU12, 640, 480), Err(EINVAL));
    assert_eq!(camera.enum_frameintervals(0, 0, 640, 480), Err(EINVAL));
    assert_eq!(camera.enum_frameintervals(0, YU12, 641, 480), Err(EINVAL));
    assert_eq!(camera.enum_frameintervals(0, YU12, 640, 479), Err(EINVAL));
}

#[test]
fn enumeration_leads_from_format_to_interval() {
    let camera = camera(LensFacing::Front);
    let desc = camera.enum_fmt(QueueType::VideoCapture, 0).unwrap();
    let format = camera.g_fmt(QueueType::VideoCapture).unwrap();
    assert_eq!(desc.pixelformat, format.pix.pixelformat);
    let size = camera.enum_framesizes(0, desc.pixelformat).unwrap();
    assert_eq!((size.width, size.height), (format.pix.width, format.pix.height));
    assert_eq!(2 * format.pix.sizeimage, 3 * size.width * size.height);
    let interval = camera
        .enum_frameintervals(0, desc.pixelformat, size.width, size.height)
        .unwrap();
    let parm = camera.g_parm(QueueType::VideoCapture).unwrap();
    assert_eq!(interval.discrete, parm.capture.timeperframe);
}

#[test]
fn frame_rate_is_fixed() {
    let camera = camera(LensFacing::Front);
    let fixed = CaptureParm {
        capability: 0x1000,
        capturemode: 0,
        timeperframe: Fract { numerator: 1, denominator: 30 },
        extendedmode: 0,
        readbuffers: 0,
    };
    assert_eq!(
        camera.g_parm(QueueType::VideoCapture),
        Ok(StreamParm { type_: 1, capture: fixed })
    );
    assert_eq!(camera.g_parm(QueueType::VideoOutput), Err(EINVAL));
    let wanted = CaptureParm {
        capability: 0,
        capturemode: 5,
        timeperframe: Fract { numerator: 1, denominator: 60 },
        extendedmode: 6,
        readbuffers: 7,
    };
    let granted = CaptureParm {
        capability: 0x1000,
        timeperframe: Fract { numerator: 1, denominator: 30 },
        ..wanted
    };
    assert_eq!(
        camera.s_parm(StreamParm { type_: 1, capture: wanted }),
        Ok(StreamParm { type_: 1, capture: granted })
    );
    // Setting what was granted changes nothing.
    assert_eq!(
        camera.s_parm(StreamParm { type_: 1, capture: granted }),
        Ok(StreamParm { type_: 1, capture: granted })
    );
    assert_eq!(camera.s_parm(StreamParm { type_: 2, capture: wanted }), Err(EINVAL));
}

#[test]
fn there_is_one_input() {
    let camera = camera(LensFacing::Front);
    assert_eq!(camera.g_input(), Ok(0));
    assert_eq!(camera.s_input(0), Ok(0));
    assert_eq!(camera.s_input(1), Err(EINVAL));
    assert_eq!(camera.s_input(-1), Err(EINVAL));
    let name = *b"Default\0\0\0\0\0\0\0\0\0\0\0\0\0\0\0\0\0\0\0\0\0\0\0\0\0";
    assert_eq!(camera.enuminput(0), Ok(Input { index: 0, name, type_: 2 }));
    assert_eq!(camera.enuminput(1), Err(EINVAL));
}

#[test]
fn names_are_padded() {
    assert_eq!(pad_name(""), [0u8; 32]);
    let full = "0123456789abcdef0123456789abcdef";
    assert_eq!(&pad_name(full)[..], full.as_bytes());
}

#[test]
fn lens_facing_control_is_described() {
    let camera = camera(LensFacing::External);
    let mut name = [0u8; 32];
    name[..11].copy_from_slice(b"LENS_FACING");
    let ctrl = QueryExtCtrl {
        id: 0x009a_0a01,
        type_: 1,
        name,
        minimum: 0,
        maximum: 2,
        step: 1,
        default_value: 2,
        flags: 4,
        elem_size: 4,
        elems: 1,
    };
    assert_eq!(camera.query_ext_ctrl(CID_LENS_FACING, 0), Ok(ctrl));
    assert_eq!(camera.query_ext_ctrl(CID_LENS_FACING - 1, 0), Err(EINVAL));
}

#[test]
fn one_control_is_enumerated() {
    let camera = camera(LensFacing::Back);
    let next = 0x8000_0000;
    let first = camera.query_ext_ctrl(0, next).unwrap();
    assert_eq!(first.id, CID_LENS_FACING);
    assert_eq!(first.default_value, 1);
    assert_eq!(camera.query_ext_ctrl(first.id - 1, next).unwrap(), first);
    assert_eq!(camera.query_ext_ctrl(first.id, next), Err(EINVAL));
    // Other flags do not ask for the next control.
    assert_eq!(camera.query_ext_ctrl(0, 0x4000_0000), Err(EINVAL));
    assert_eq!(camera.query_ext_ctrl(0, 0xc000_0000).unwrap(), first);
}

#[test]
fn controls_are_read_up_to_an_unknown_one() {
    let camera = camera(LensFacing::External);
    let lens = ExtControl { id: CID_LENS_FACING, value: 77 };
    let read = ExtControl { id: CID_LENS_FACING, value: 2 };
    let other = ExtControl { id: 1, value: 88 };

    let mut ctrls = ExtControls { count: 2, error_idx: 9 };
    let mut list = vec![lens, lens];
    assert_eq!(camera.g_ext_ctrls(&mut ctrls, &mut list), Ok(()));
    assert_eq!(list, vec![read, read]);
    assert_eq!(ctrls, ExtControls { count: 2, error_idx: 9 });

    let mut ctrls = ExtControls { count: 3, error_idx: 9 };
    let mut list = vec![lens, other, lens];
    assert_eq!(camera.g_ext_ctrls(&mut ctrls, &mut list), Err(EINVAL));
    assert_eq!(list, vec![read, other, lens]);
    assert_eq!(ctrls, ExtControls { count: 3, error_idx: 3 });

    let mut ctrls = ExtControls { count: 0, error_idx: 9 };
    assert_eq!(camera.g_ext_ctrls(&mut ctrls, &mut vec![]), Ok(()));
    assert_eq!(ctrls.error_idx, 9);
}

#[test]
fn controls_cannot_be_set() {
    let camera = camera(LensFacing::External);
    let lens = ExtControl { id: CID_LENS_FACING, value: 1 };
    let other = ExtControl { id: 1, value: 1 };
    let start = ExtControls { count: 2, error_idx: 9 };

    let mut ctrls = start;
    assert_eq!(camera.try_ext_ctrls(&mut ctrls, &vec![lens, other]), Err(EACCES));
    assert_eq!(ctrls, ExtControls { count: 2, error_idx: 0 });
    let mut ctrls = start;
    assert_eq!(camera.try_ext_ctrls(&mut ctrls, &vec![other, lens]), Err(EINVAL));
    assert_eq!(ctrls, ExtControls { count: 2, error_idx: 0 });

    let mut ctrls = start;
    assert_eq!(camera.s_ext_ctrls(&mut ctrls, &vec![lens, other]), Err(EACCES));
    assert_eq!(ctrls, ExtControls { count: 2, error_idx: 2 });
    let mut ctrls = start;
    assert_eq!(camera.s_ext_ctrls(&mut ctrls, &vec![other, lens]), Err(EINVAL));
    assert_eq!(ctrls, ExtControls { count: 2, error_idx: 2 });

    let mut ctrls = start;
    assert_eq!(camera.try_ext_ctrls(&mut ctrls, &vec![]), Ok(()));
    assert_eq!(camera.s_ext_ctrls(&mut ctrls, &vec![]), Ok(()));
    assert_eq!(ctrls, start);
}

#[test]
fn lens_facing_can_be_subscribed_to() {
    let camera = camera(LensFacing::Back);
    let (session, _reader) = camera.new_session::<u32>(6).unwrap();
    let subscribe = |event, flags| camera.subscribe_event(&session, event, flags);
    let event = subscribe(EventType::Ctrl(CID_LENS_FACING), 1).unwrap();
    assert_eq!(event, CtrlEvent { session_id: 6, type_: 3, id: CID_LENS_FACING });
    assert_eq!(subscribe(EventType::Ctrl(CID_LENS_FACING), 3), Ok(event));
    assert_eq!(subscribe(EventType::Ctrl(CID_LENS_FACING), 2), Err(EINVAL));
    assert_eq!(subscribe(EventType::Ctrl(CID_LENS_FACING + 1), 1), Err(EINVAL));
    assert_eq!(subscribe(EventType::SourceChange(CID_LENS_FACING), 1), Err(EINVAL));
    assert_eq!(subscribe(EventType::Eos, 1), Err(EINVAL));

    assert_eq!(camera.unsubscribe_event(event.type_, event.id), Ok(()));
    assert_eq!(camera.unsubscribe_event(event.type_, 0), Err(EINVAL));
    assert_eq!(camera.unsubscribe_event(2, event.id), Err(EINVAL));
}
