//! Control and event requests of the guest.
//!
//! The camera has a single control, the lens facing, which is read-only.

use vstd::prelude::*;

use crate::camera::EmulatedCamera;
use crate::errno::{eacces, einval, IoctlResult, EACCES, EINVAL};
use crate::lens::LensFacing;
use crate::session::EmulatedCameraSession;
use crate::v4l2::{
    pad_name, padded_name, CtrlEvent, EventType, ExtControl, ExtControls, QueryExtCtrl,
    V4L2_CID_CAMERA_CLASS_BASE, V4L2_CTRL_FLAG_NEXT_CTRL, V4L2_CTRL_FLAG_READ_ONLY,
    V4L2_CTRL_TYPE_INTEGER, V4L2_EVENT_CTRL, V4L2_EVENT_SUB_FL_SEND_INITIAL,
};

verus! {

/// Start of the control ids of virtio-media cameras.
pub const CID_OFFSET: u32 = V4L2_CID_CAMERA_CLASS_BASE + 0x100;

/// Id of the lens-facing control.
pub const CID_LENS_FACING: u32 = CID_OFFSET + 1;

/// Whether `ctrl` describes the lens-facing control of a camera that faces this way.
pub open spec fn describes_lens_facing(ctrl: QueryExtCtrl, facing: LensFacing) -> bool {
    &&& ctrl.id == CID_LENS_FACING
    &&& ctrl.type_ == V4L2_CTRL_TYPE_INTEGER
    &&& ctrl.name@ == padded_name("LENS_FACING"@)
    &&& ctrl.minimum == LensFacing::Front.spec_value()
    &&& ctrl.maximum == LensFacing::External.spec_value()
    &&& ctrl.step == 1
    &&& ctrl.default_value == facing.spec_value()
    &&& ctrl.flags == V4L2_CTRL_FLAG_READ_ONLY
    &&& ctrl.elems == 1
    &&& ctrl.elem_size == 4
}

/// Whether a query with this id and these flags finds the lens-facing control: by its own id, or
/// as the first control with a higher id.
pub open spec fn query_finds_lens_facing(id: u32, flags: u32) -> bool {
    if flags & V4L2_CTRL_FLAG_NEXT_CTRL != 0 {
        id < CID_LENS_FACING
    } else {
        id == CID_LENS_FACING
    }
}

/// How many controls at the start of a list are the lens-facing control.
pub open spec fn known_prefix(controls: Seq<ExtControl>) -> int
    decreases controls.len(),
{
    if controls.len() == 0 || controls[0].id != CID_LENS_FACING {
        0
    } else {
        1 + known_prefix(controls.drop_first())
    }
}

/// A list of controls after reading those at its start that the camera has.
pub open spec fn controls_read(controls: Seq<ExtControl>, facing: LensFacing) -> Seq<ExtControl> {
    Seq::new(
        controls.len(),
        |i: int|
            if i < known_prefix(controls) {
                ExtControl { value: facing.spec_value(), ..controls[i] }
            } else {
                controls[i]
            },
    )
}

/// The error code for setting the control with this id.
pub open spec fn set_control_error(id: u32) -> i32 {
    if id == CID_LENS_FACING {
        EACCES
    } else {
        EINVAL
    }
}

/// Whether a session can subscribe to `event` with these flags: only to the lens-facing control,
/// and only if an event is to be sent at once.
pub open spec fn can_subscribe(event: EventType, flags: u32) -> bool {
    flags & V4L2_EVENT_SUB_FL_SEND_INITIAL != 0 && event == EventType::Ctrl(CID_LENS_FACING)
}

/// Whether a subscription to events of this type and id can be ended.
pub open spec fn can_unsubscribe(type_: u32, id: u32) -> bool {
    type_ == V4L2_EVENT_CTRL && id == CID_LENS_FACING
}

/// The event sent to a session that subscribes to the lens-facing control.
pub open spec fn initial_event(session_id: u32) -> CtrlEvent {
    CtrlEvent { session_id, type_: V4L2_EVENT_CTRL, id: CID_LENS_FACING }
}

/// The lens-facing controls at the start of a list are followed by another control, if any.
proof fn lemma_known_prefix(controls: Seq<ExtControl>, known: int)
    requires
        0 <= known <= controls.len(),
        forall|i: int| 0 <= i < known ==> (#[trigger] controls[i]).id == CID_LENS_FACING,
        known < controls.len() ==> controls[known].id != CID_LENS_FACING,
    ensures
        known_prefix(controls) == known,
    decreases known,
{
    if known > 0 {
        assert(controls[0].id == CID_LENS_FACING);
        let rest = controls.drop_first();
        assert forall|i: int| 0 <= i < known - 1 implies (#[trigger] rest[i]).id
            == CID_LENS_FACING by {
            assert(rest[i] == controls[i + 1]);
        }
        lemma_known_prefix(rest, known - 1);
    }
}

impl<Q, M, P> EmulatedCamera<Q, M, P> {
    /// Describes the lens-facing control.
    fn lens_facing_query_ext_ctrl(&self) -> (ctrl: QueryExtCtrl)
        ensures
            describes_lens_facing(ctrl, self.lens_facing),
    {
        proof {
            reveal_strlit("LENS_FACING");
        }
        QueryExtCtrl {
            id: CID_LENS_FACING,
            type_: V4L2_CTRL_TYPE_INTEGER,
            name: pad_name("LENS_FACING"),
            minimum: LensFacing::Front.value() as i64,
            maximum: LensFacing::External.value() as i64,
            step: 1,
            default_value: self.lens_facing.value() as i64,
            flags: V4L2_CTRL_FLAG_READ_ONLY,
            elem_size: 4,
            elems: 1,
        }
    }

    /// Describes the control with this id, or the next one.
    ///
    /// See <https://www.kernel.org/doc/html/latest/userspace-api/media/v4l/vidioc-queryctrl.html#control-flags>.
    pub fn query_ext_ctrl(&self, id: u32, flags: u32) -> (r: IoctlResult<QueryExtCtrl>)
        ensures
            query_finds_lens_facing(id, flags) ==> r is Ok && describes_lens_facing(
                r->Ok_0,
                self.lens_facing,
            ),
            !query_finds_lens_facing(id, flags) ==> r == Err::<QueryExtCtrl, i32>(EINVAL),
    {
        // With this flag the first control with a higher id is asked for.
        if flags & V4L2_CTRL_FLAG_NEXT_CTRL != 0 {
            if id < CID_LENS_FACING {
                return Ok(self.lens_facing_query_ext_ctrl());
            }
        } else if id == CID_LENS_FACING {
            return Ok(self.lens_facing_query_ext_ctrl());
        }
        Err(einval())
    }

    /// Reads a list of controls, up to the first that the camera does not have.
    pub fn g_ext_ctrls(&self, ctrls: &mut ExtControls, ctrl_array: &mut Vec<ExtControl>) -> (r:
        IoctlResult<()>)
        ensures
            final(ctrl_array)@ == controls_read(old(ctrl_array)@, self.lens_facing),
            known_prefix(old(ctrl_array)@) == old(ctrl_array)@.len() ==> {
                &&& r == Ok::<(), i32>(())
                &&& *final(ctrls) == *old(ctrls)
            },
            known_prefix(old(ctrl_array)@) != old(ctrl_array)@.len() ==> {
                &&& r == Err::<(), i32>(EINVAL)
                &&& *final(ctrls) == (ExtControls { error_idx: old(ctrls).count, ..*old(ctrls) })
            },
    {
        let ghost before = ctrl_array@;
        let value: i32 = self.lens_facing.value();
        let mut i: usize = 0;
        while i < ctrl_array.len()
            invariant
                i <= ctrl_array@.len() == before.len(),
                value == self.lens_facing.spec_value(),
                before == old(ctrl_array)@,
                *ctrls == *old(ctrls),
                forall|j: int| 0 <= j < i ==> (#[trigger] before[j]).id == CID_LENS_FACING,
                forall|j: int|
                    0 <= j < i ==> #[trigger] ctrl_array@[j] == (ExtControl {
                        value,
                        ..before[j]
                    }),
                forall|j: int| i <= j < before.len() ==> #[trigger] ctrl_array@[j] == before[j],
            decreases ctrl_array@.len() - i,
        {
            if ctrl_array[i].id == CID_LENS_FACING {
                ctrl_array[i].value = value;
            } else {
                ctrls.error_idx = ctrls.count;
                proof {
                    lemma_known_prefix(before, i as int);
                    assert(ctrl_array@ =~= controls_read(before, self.lens_facing));
                }
                return Err(einval());
            }
            i += 1;
        }
        proof {
            lemma_known_prefix(before, i as int);
            assert(ctrl_array@ =~= controls_read(before, self.lens_facing));
        }
        Ok(())
    }

    /// Says whether a list of controls could be set: none can.
    pub fn try_ext_ctrls(&self, ctrls: &mut ExtControls, ctrl_array: &Vec<ExtControl>) -> (r:
        IoctlResult<()>)
        ensures
            ctrl_array@.len() == 0 ==> {
                &&& r == Ok::<(), i32>(())
                &&& *final(ctrls) == *old(ctrls)
            },
            ctrl_array@.len() > 0 ==> {
                &&& r == Err::<(), i32>(set_control_error(ctrl_array@[0].id))
                &&& *final(ctrls) == (ExtControls { error_idx: 0, ..*old(ctrls) })
            },
    {
        if ctrl_array.len() == 0 {
            return Ok(());
        }
        ctrls.error_idx = 0;
        if ctrl_array[0].id == CID_LENS_FACING {
            Err(eacces())
        } else {
            Err(einval())
        }
    }

    /// Sets a list of controls: none can be set.
    pub fn s_ext_ctrls(&self, ctrls: &mut ExtControls, ctrl_array: &Vec<ExtControl>) -> (r:
        IoctlResult<()>)
        ensures
            ctrl_array@.len() == 0 ==> {
                &&& r == Ok::<(), i32>(())
                &&& *final(ctrls) == *old(ctrls)
            },
            ctrl_array@.len() > 0 ==> {
                &&& r == Err::<(), i32>(set_control_error(ctrl_array@[0].id))
                &&& *final(ctrls) == (ExtControls { error_idx: old(ctrls).count, ..*old(ctrls) })
            },
    {
        if ctrl_array.len() == 0 {
            return Ok(());
        }
        ctrls.error_idx = ctrls.count;
        if ctrl_array[0].id == CID_LENS_FACING {
            Err(eacces())
        } else {
            Err(einval())
        }
    }

    /// Subscribes a session to an event. Returns the event to send at once.
    pub fn subscribe_event<F>(
        &self,
        session: &EmulatedCameraSession<F>,
        event: EventType,
        flags: u32,
    ) -> (r: IoctlResult<CtrlEvent>)
        ensures
            can_subscribe(event, flags) ==> r == Ok::<CtrlEvent, i32>(initial_event(session@.id)),
            !can_subscribe(event, flags) ==> r == Err::<CtrlEvent, i32>(EINVAL),
    {
        if flags & V4L2_EVENT_SUB_FL_SEND_INITIAL == 0 {
            return Err(einval());
        }
        match event {
            EventType::Ctrl(id) => {
                if id == CID_LENS_FACING {
                    Ok(
                        CtrlEvent {
                            session_id: session.id,
                            type_: V4L2_EVENT_CTRL,
                            id: CID_LENS_FACING,
                        },
                    )
                } else {
                    Err(einval())
                }
            },
            _ => Err(einval()),
        }
    }

    /// Ends a subscription.
    pub fn unsubscribe_event(&self, type_: u32, id: u32) -> (r: IoctlResult<()>)
        ensures
            can_unsubscribe(type_, id) ==> r == Ok::<(), i32>(()),
            !can_unsubscribe(type_, id) ==> r == Err::<(), i32>(EINVAL),
    {
        if type_ == V4L2_EVENT_CTRL && id == CID_LENS_FACING {
            Ok(())
        } else {
            Err(einval())
        }
    }
}

/// Asking for one control after the other finds the lens-facing control and then ends: every
/// lower id leads to it, and its own id leads to nothing more.
pub proof fn lemma_one_control_is_enumerated(id: u32)
    ensures
        query_finds_lens_facing(id, V4L2_CTRL_FLAG_NEXT_CTRL) <==> id < CID_LENS_FACING,
        query_finds_lens_facing(id, 0) <==> id == CID_LENS_FACING,
{
    assert(0x8000_0000u32 & 0x8000_0000u32 != 0) by (bit_vector);
    assert(0u32 & 0x8000_0000u32 == 0) by (bit_vector);
}

/// Reading the lens-facing control gives the value that its description has as default, which
/// lies in the range that the description allows; reading changes no id and no other control.
pub proof fn lemma_read_value_is_described(
    ctrl: QueryExtCtrl,
    facing: LensFacing,
    controls: Seq<ExtControl>,
    i: int,
)
    requires
        describes_lens_facing(ctrl, facing),
        0 <= i < controls.len(),
    ensures
        ctrl.minimum <= ctrl.default_value <= ctrl.maximum,
        i < known_prefix(controls) ==> controls_read(controls, facing)[i].value
            == ctrl.default_value,
        i >= known_prefix(controls) ==> controls_read(controls, facing)[i] == controls[i],
        controls_read(controls, facing)[i].id == controls[i].id,
{
}

/// A list of controls can be read if and only if it names the lens-facing control alone.
pub proof fn lemma_readable_lists(controls: Seq<ExtControl>)
    ensures
        known_prefix(controls) == controls.len() <==> (forall|i: int|
            0 <= i < controls.len() ==> (#[trigger] controls[i]).id == CID_LENS_FACING),
        0 <= known_prefix(controls) <= controls.len(),
        known_prefix(controls) < controls.len() ==> controls[known_prefix(controls)].id
            != CID_LENS_FACING,
    decreases controls.len(),
{
    if controls.len() > 0 && controls[0].id == CID_LENS_FACING {
        let rest = controls.drop_first();
        lemma_readable_lists(rest);
        if known_prefix(rest) == rest.len() {
            assert forall|i: int| 0 <= i < controls.len() implies (#[trigger] controls[i]).id
                == CID_LENS_FACING by {
                if i > 0 {
                    assert(rest[i - 1] == controls[i]);
                }
            }
        } else {
            assert(rest[known_prefix(rest)] == controls[known_prefix(rest) + 1]);
        }
    }
}

/// What a session can subscribe to it can unsubscribe from, by the type and the id of the event
/// that it is sent at once; nothing else can be unsubscribed from.
pub proof fn lemma_subscriptions_can_be_ended(session_id: u32, event: EventType, flags: u32)
    ensures
        can_subscribe(event, flags) ==> event == EventType::Ctrl(initial_event(session_id).id),
        can_unsubscribe(initial_event(session_id).type_, initial_event(session_id).id),
        forall|type_: u32, id: u32|
            can_unsubscribe(type_, id) <==> type_ == initial_event(session_id).type_ && id
                == initial_event(session_id).id,
{
}

} // verus!
