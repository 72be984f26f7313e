//! Controls, events and lens facings.

use vstd::prelude::*;

use crate::camera::EmulatedCamera;
use crate::controls::{known_prefix, lemma_readable_lists};
use crate::errno::IoctlResult;
use crate::lens::{invalid_lens_facing, lens_facing_named, LensFacing};
use crate::session::EmulatedCameraSession;
use crate::v4l2::{pad_name, CtrlEvent, EventType, ExtControl, ExtControls, QueryExtCtrl};

verus! {

/// Whether `value` is the number that Android gives a lens facing.
pub open spec fn is_number_of(value: int, facing: LensFacing) -> bool {
    match facing {
        LensFacing::Front => value == 0,
        LensFacing::Back => value == 1,
        LensFacing::External => value == 2,
    }
}

/// The lens facings are numbered front, back, external, from 0.
pub proof fn lemma_lens_facings_are_numbered(facing: LensFacing, value: i32)
    requires
        call_ensures(LensFacing::value, (facing,), value),
    ensures
        is_number_of(value as int, facing),
{
}

/// Exactly three names stand for a lens facing, one for each. Of any other name it is said that it
/// does not, and the name is quoted.
pub proof fn lemma_three_names(name: Seq<char>)
    ensures
        lens_facing_named(name) == Some(LensFacing::Front) <==> name == seq![
            'F',
            'R',
            'O',
            'N',
            'T',
        ],
        lens_facing_named(name) == Some(LensFacing::Back) <==> name == seq!['B', 'A', 'C', 'K'],
        lens_facing_named(name) == Some(LensFacing::External) <==> name == seq![
            'E',
            'X',
            'T',
            'E',
            'R',
            'N',
            'A',
            'L',
        ],
        invalid_lens_facing(name).take(21) == "Invalid lens facing: "@,
        invalid_lens_facing(name).subrange(21, 21 + name.len() as int) == name,
        invalid_lens_facing(name).skip(21 + name.len() as int)
            == ". Expected FRONT, BACK, or EXTERNAL"@,
{
    reveal_strlit("FRONT");
    reveal_strlit("BACK");
    reveal_strlit("EXTERNAL");
    reveal_strlit("Invalid lens facing: ");
    assert("FRONT"@ =~= seq!['F', 'R', 'O', 'N', 'T']);
    assert("BACK"@ =~= seq!['B', 'A', 'C', 'K']);
    assert("EXTERNAL"@ =~= seq!['E', 'X', 'T', 'E', 'R', 'N', 'A', 'L']);
    assert("FRONT"@[0] != "BACK"@[0]);
    assert("FRONT"@[0] != "EXTERNAL"@[0]);
    assert("BACK"@[0] != "EXTERNAL"@[0]);
    assert(invalid_lens_facing(name).take(21) =~= "Invalid lens facing: "@);
    assert(invalid_lens_facing(name).subrange(21, 21 + name.len() as int) =~= name);
    assert(invalid_lens_facing(name).skip(21 + name.len() as int)
        =~= ". Expected FRONT, BACK, or EXTERNAL"@);
}

/// A name can be padded if it is ASCII text of at most 32 characters: these come first, one byte
/// each, and zeros fill up the rest.
pub proof fn lemma_names_are_padded(text: &str, name: [u8; 32])
    requires
        text.is_ascii(),
        text@.len() <= 32,
        call_ensures(pad_name, (text,), name),
    ensures
        call_requires(pad_name, (text,)),
        name@.len() == 32,
        forall|i: int| 0 <= i < text@.len() ==> #[trigger] name@[i] == text@[i] as u8,
        forall|i: int| text@.len() <= i < 32 ==> #[trigger] name@[i] == 0,
{
}

/// The lens-facing control is found by its id, or as the next control by every lower id, and by no
/// other query. It is a read-only integer from 0 to 2 in steps of 1, one element of four bytes,
/// named "LENS_FACING", and its default value is the number of the facing of the camera.
pub proof fn lemma_control_tells_the_facing<Q, M, P>(
    camera: &EmulatedCamera<Q, M, P>,
    id: u32,
    flags: u32,
    r: IoctlResult<QueryExtCtrl>,
)
    requires
        call_ensures(EmulatedCamera::<Q, M, P>::query_ext_ctrl, (camera, id, flags), r),
    ensures
        flags & 0x8000_0000 == 0 ==> (r is Ok <==> id == 0x009a_0a01),
        flags & 0x8000_0000 != 0 ==> (r is Ok <==> id < 0x009a_0a01),
        r is Err ==> r->Err_0 == 22,
        r is Ok ==> {
            let ctrl = r->Ok_0;
            &&& ctrl.id == 0x009a_0a01
            &&& ctrl.type_ == 1
            &&& ctrl.minimum == 0
            &&& ctrl.maximum == 2
            &&& ctrl.step == 1
            &&& is_number_of(ctrl.default_value as int, camera.lens_facing)
            &&& ctrl.flags == 4
            &&& ctrl.elems == 1
            &&& ctrl.elem_size == 4
            &&& ctrl.name@.len() == 32
            &&& ctrl.name@.take(11) == seq![76u8, 69, 78, 83, 95, 70, 65, 67, 73, 78, 71]
            &&& forall|i: int| 11 <= i < 32 ==> #[trigger] ctrl.name@[i] == 0
        },
{
    reveal_strlit("LENS_FACING");
    if r is Ok {
        assert(r->Ok_0.name@.take(11) =~= seq![76u8, 69, 78, 83, 95, 70, 65, 67, 73, 78, 71]);
    }
}

/// Reading controls gives each one before the first unknown one the number of the facing of the
/// camera, and changes nothing else in the list. It succeeds if and only if all are known; then
/// nothing is said of an error, and otherwise `EINVAL`, with the whole list to blame.
pub proof fn lemma_controls_read_the_facing<Q, M, P>(
    camera: &EmulatedCamera<Q, M, P>,
    ctrls: &mut ExtControls,
    list: &mut Vec<ExtControl>,
    r: IoctlResult<()>,
)
    requires
        call_ensures(EmulatedCamera::<Q, M, P>::g_ext_ctrls, (camera, ctrls, list), r),
    ensures
        r is Ok <==> forall|i: int|
            0 <= i < old(list)@.len() ==> (#[trigger] old(list)@[i]).id == 0x009a_0a01,
        r is Err ==> r->Err_0 == 22,
        final(ctrls).count == old(ctrls).count,
        final(ctrls).error_idx == (if r is Ok {
            old(ctrls).error_idx
        } else {
            old(ctrls).count
        }),
        final(list)@.len() == old(list)@.len(),
        forall|i: int|
            0 <= i < old(list)@.len() ==> {
                let after = #[trigger] final(list)@[i];
                &&& after.id == old(list)@[i].id
                &&& (forall|j: int|
                    0 <= j <= i ==> (#[trigger] old(list)@[j]).id == 0x009a_0a01)
                    ==> is_number_of(after.value as int, camera.lens_facing)
                &&& !(forall|j: int|
                    0 <= j <= i ==> (#[trigger] old(list)@[j]).id == 0x009a_0a01) ==> after.value
                    == old(list)@[i].value
            },
{
    let before = old(list)@;
    let known = known_prefix(before);
    lemma_readable_lists(before);
    lemma_known_controls(before);
    assert forall|i: int| 0 <= i < before.len() implies ({
        let after = #[trigger] final(list)@[i];
        &&& after.id == before[i].id
        &&& (forall|j: int| 0 <= j <= i ==> (#[trigger] before[j]).id == 0x009a_0a01)
            ==> is_number_of(after.value as int, camera.lens_facing)
        &&& !(forall|j: int| 0 <= j <= i ==> (#[trigger] before[j]).id == 0x009a_0a01)
            ==> after.value == before[i].value
    }) by {
        if i < known {
            assert forall|j: int| 0 <= j <= i implies (#[trigger] before[j]).id
                == 0x009a_0a01 by {}
        } else {
            assert(before[known].id != 0x009a_0a01);
        }
    }
}

/// The controls before the first unknown one are the lens-facing control.
proof fn lemma_known_controls(controls: Seq<ExtControl>)
    ensures
        forall|i: int|
            0 <= i < known_prefix(controls) ==> (#[trigger] controls[i]).id == 0x009a_0a01,
    decreases controls.len(),
{
    lemma_readable_lists(controls);
    if known_prefix(controls) > 0 {
        let rest = controls.drop_first();
        lemma_known_controls(rest);
        assert forall|i: int| 0 <= i < known_prefix(controls) implies (#[trigger] controls[i]).id
            == 0x009a_0a01 by {
            if i > 0 {
                assert(rest[i - 1] == controls[i]);
            }
        }
    }
}

/// The control tells cameras apart: two cameras read the same value if and only if they face the
/// same way, the value is the default of the description, and a front camera reads the lowest one.
pub proof fn lemma_control_tells_cameras_apart<Q, M, P>(
    one: &EmulatedCamera<Q, M, P>,
    one_ctrls: &mut ExtControls,
    one_list: &mut Vec<ExtControl>,
    other: &EmulatedCamera<Q, M, P>,
    other_ctrls: &mut ExtControls,
    other_list: &mut Vec<ExtControl>,
    flags: u32,
    ctrl: QueryExtCtrl,
)
    requires
        old(one_list)@.len() > 0,
        old(other_list)@.len() > 0,
        call_ensures(
            EmulatedCamera::<Q, M, P>::g_ext_ctrls,
            (one, one_ctrls, one_list),
            Ok(()),
        ),
        call_ensures(
            EmulatedCamera::<Q, M, P>::g_ext_ctrls,
            (other, other_ctrls, other_list),
            Ok(()),
        ),
        call_ensures(
            EmulatedCamera::<Q, M, P>::query_ext_ctrl,
            (one, 0x009a_0a01, flags),
            Ok(ctrl),
        ),
    ensures
        final(one_list)@[0].value == final(other_list)@[0].value <==> one.lens_facing
            == other.lens_facing,
        final(one_list)@[0].value == ctrl.default_value,
        final(one_list)@[0].value == ctrl.minimum <==> one.lens_facing == LensFacing::Front,
        final(one_list)@[0].value == ctrl.maximum <==> one.lens_facing == LensFacing::External,
{
    lemma_controls_read_the_facing(one, one_ctrls, one_list, Ok(()));
    lemma_controls_read_the_facing(other, other_ctrls, other_list, Ok(()));
    lemma_control_tells_the_facing(one, 0x009a_0a01, flags, Ok(ctrl));
    assert(final(one_list)@[0].id == old(one_list)@[0].id);
    assert(final(other_list)@[0].id == old(other_list)@[0].id);
}

/// No control can be set, and nothing is tried beyond the first one of a list: the guest is told
/// `EACCES` if that is the lens-facing control and `EINVAL` otherwise. Trying blames the first
/// control, setting the whole list. Of an empty list there is nothing to refuse.
pub proof fn lemma_controls_cannot_be_set<Q, M, P>(
    camera: &EmulatedCamera<Q, M, P>,
    list: &Vec<ExtControl>,
    trying: &mut ExtControls,
    tried: IoctlResult<()>,
    setting: &mut ExtControls,
    set: IoctlResult<()>,
)
    requires
        call_ensures(EmulatedCamera::<Q, M, P>::try_ext_ctrls, (camera, trying, list), tried),
        call_ensures(EmulatedCamera::<Q, M, P>::s_ext_ctrls, (camera, setting, list), set),
    ensures
        tried is Ok <==> list@.len() == 0,
        tried is Err ==> tried->Err_0 == (if list@[0].id == 0x009a_0a01 {
            13i32
        } else {
            22i32
        }),
        set == tried,
        final(trying).count == old(trying).count,
        final(setting).count == old(setting).count,
        final(trying).error_idx == (if tried is Ok {
            old(trying).error_idx
        } else {
            0
        }),
        final(setting).error_idx == (if set is Ok {
            old(setting).error_idx
        } else {
            old(setting).count
        }),
{
}

/// A session can subscribe to the lens-facing control and to nothing else, and only if it wants an
/// event at once; it gets one for that control. It can unsubscribe from that control and from
/// nothing else.
pub proof fn lemma_facing_can_be_subscribed_to<Q, M, P, F>(
    camera: &EmulatedCamera<Q, M, P>,
    session: &EmulatedCameraSession<F>,
    event: EventType,
    flags: u32,
    r: IoctlResult<CtrlEvent>,
    type_: u32,
    id: u32,
    ended: IoctlResult<()>,
)
    requires
        call_ensures(
            EmulatedCamera::<Q, M, P>::subscribe_event::<F>,
            (camera, session, event, flags),
            r,
        ),
        call_ensures(EmulatedCamera::<Q, M, P>::unsubscribe_event, (camera, type_, id), ended),
    ensures
        r is Ok <==> flags & 1 != 0 && event == EventType::Ctrl(0x009a_0a01),
        r is Ok ==> r->Ok_0 == (CtrlEvent { session_id: session.id, type_: 3, id: 0x009a_0a01 }),
        r is Err ==> r->Err_0 == 22,
        ended is Ok <==> type_ == 3 && id == 0x009a_0a01,
        ended is Err ==> ended->Err_0 == 22,
{
}

} // verus!
