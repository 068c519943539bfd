//! The firmware revision identifier and its raw byte form.

use vl53l5cx_uld::revision::{api_revision_raw, API_REVISION};
use vl53l5cx_uld::units::{Hz, Ms};

#[test]
fn revision_text_round_trips_to_raw_bytes() {
    // Re-encoding the exposed text to its null-terminated form gives the
    // firmware engine's raw identifier bytes exactly.
    let raw = api_revision_raw();
    let mut re_encoded: Vec<u8> = API_REVISION.as_bytes().to_vec();
    re_encoded.push(0x00);
    assert_eq!(raw, re_encoded);
}

#[test]
fn revision_raw_is_null_terminated_text() {
    let raw = api_revision_raw();
    assert_eq!(raw.last(), Some(&0x00));
    assert_eq!(&raw[..raw.len() - 1], API_REVISION.as_bytes());
    assert_eq!(API_REVISION, "VL53L5CX_2.0.0");
}

#[test]
fn unit_newtypes_carry_their_values() {
    let f = Hz(15);
    let d = Ms(1000);
    assert_eq!(f.clone(), Hz(15));
    assert_eq!(d.clone(), Ms(1000));
    assert_eq!(f.0, 15);
    assert_eq!(d.0, 1000);
}
