use std::str::FromStr;

use emulated_camera::lens::LensFacing;

#[test]
fn lens_facing_is_parsed() {
    assert_eq!(LensFacing::from_str("FRONT"), Ok(LensFacing::Front));
    assert_eq!("BACK".parse::<LensFacing>(), Ok(LensFacing::Back));
    assert_eq!(LensFacing::from_str("EXTERNAL"), Ok(LensFacing::External));
}

#[test]
fn invalid_lens_facing_is_named() {
    for name in ["front", "", "SIDE", "BACK "] {
        assert_eq!(
            LensFacing::from_str(name),
            Err(format!(
                "Invalid lens facing: {}. Expected FRONT, BACK, or EXTERNAL",
                name
            ))
        );
    }
}

#[test]
fn lens_facings_are_numbered() {
    assert_eq!(LensFacing::Front.value(), 0);
    assert_eq!(LensFacing::Back.value(), 1);
    assert_eq!(LensFacing::External.value(), 2);
}
