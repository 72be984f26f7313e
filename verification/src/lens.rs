//! Which way the camera faces.

use std::str::FromStr;
use vstd::prelude::*;

verus! {

/// Lens facing, numbered as in
/// <https://developer.android.com/reference/android/hardware/camera2/CameraMetadata#LENS_FACING_FRONT>.
#[derive(Debug, Clone, Copy, PartialEq, Eq, Structural)]
pub enum LensFacing {
    /// The camera faces the same way as the screen.
    Front,
    /// The camera faces away from the screen.
    Back,
    /// The camera is not fixed to the device.
    External,
}

/// The lens facing that `name` stands for, if any.
pub open spec fn lens_facing_named(name: Seq<char>) -> Option<LensFacing> {
    if name == "FRONT"@ {
        Some(LensFacing::Front)
    } else if name == "BACK"@ {
        Some(LensFacing::Back)
    } else if name == "EXTERNAL"@ {
        Some(LensFacing::External)
    } else {
        None
    }
}

/// What is said of a name that stands for no lens facing.
pub open spec fn invalid_lens_facing(name: Seq<char>) -> Seq<char> {
    "Invalid lens facing: "@ + name + ". Expected FRONT, BACK, or EXTERNAL"@
}

impl LensFacing {
    /// The number of this lens facing.
    pub open spec fn spec_value(self) -> i32 {
        match self {
            LensFacing::Front => 0,
            LensFacing::Back => 1,
            LensFacing::External => 2,
        }
    }

    /// The number of this lens facing, as the lens-facing control reports it.
    pub fn value(self) -> (value: i32)
        ensures
            value == self.spec_value(),
    {
        match self {
            LensFacing::Front => 0,
            LensFacing::Back => 1,
            LensFacing::External => 2,
        }
    }
}

impl FromStr for LensFacing {
    type Err = String;

    fn from_str(s: &str) -> (r: Result<Self, Self::Err>)
        ensures
            match lens_facing_named(s@) {
                Some(facing) => r == Ok::<LensFacing, String>(facing),
                None => r is Err && r->Err_0@ == invalid_lens_facing(s@),
            },
            r == Ok::<LensFacing, String>(LensFacing::Front) <==> s@ == "FRONT"@,
            r == Ok::<LensFacing, String>(LensFacing::Back) <==> s@ == "BACK"@,
            r == Ok::<LensFacing, String>(LensFacing::External) <==> s@ == "EXTERNAL"@,
            r is Err ==> r->Err_0@ == "Invalid lens facing: "@ + s@
                + ". Expected FRONT, BACK, or EXTERNAL"@,
    {
        proof {
            reveal_strlit("FRONT");
            reveal_strlit("BACK");
            reveal_strlit("EXTERNAL");
            assert("FRONT"@.len() == 5 && "BACK"@.len() == 4 && "EXTERNAL"@.len() == 8);
        }
        let name: String = s.to_owned();
        if name == "FRONT".to_owned() {
            Ok(LensFacing::Front)
        } else if name == "BACK".to_owned() {
            Ok(LensFacing::Back)
        } else if name == "EXTERNAL".to_owned() {
            Ok(LensFacing::External)
        } else {
            Err(
                "Invalid lens facing: ".to_owned().concat(s).concat(
                    ". Expected FRONT, BACK, or EXTERNAL",
                ),
            )
        }
    }
}

/// Different lens facings have different numbers, and the numbers run from 0 to 2.
pub proof fn lemma_values_tell_facings_apart(a: LensFacing, b: LensFacing)
    ensures
        a.spec_value() == b.spec_value() <==> a == b,
        LensFacing::Front.spec_value() <= a.spec_value() <= LensFacing::External.spec_value(),
{
}

} // verus!
