//! The firmware engine's build/revision identifier.
//!
//! The engine exposes the identifier as a null-terminated byte sequence;
//! this module exposes it re-parsed as plain text, together with a proof
//! that the text round-trips to the raw bytes exactly (minus the
//! terminator).

use vstd::prelude::*;

verus! {

/// The firmware engine's revision identifier, as plain text.
pub const API_REVISION: &'static str = "VL53L5CX_2.0.0";

/// The raw identifier bytes as the firmware engine stores them: the text
/// of [`API_REVISION`] followed by a null terminator.
pub open spec fn spec_api_revision_raw() -> Seq<u8> {
    seq![
        0x56u8, 0x4cu8, 0x35u8, 0x33u8, 0x4cu8, 0x35u8, 0x43u8, 0x58u8,
        0x5fu8, 0x32u8, 0x2eu8, 0x30u8, 0x2eu8, 0x30u8, 0x00u8,
    ]
}

/// The raw null-terminated identifier bytes of the firmware engine.
pub fn api_revision_raw() -> (r: Vec<u8>)
    ensures
        r@ == spec_api_revision_raw(),
{
    let mut v: Vec<u8> = Vec::new();
    v.push(0x56);
    v.push(0x4c);
    v.push(0x35);
    v.push(0x33);
    v.push(0x4c);
    v.push(0x35);
    v.push(0x43);
    v.push(0x58);
    v.push(0x5f);
    v.push(0x32);
    v.push(0x2e);
    v.push(0x30);
    v.push(0x2e);
    v.push(0x30);
    v.push(0x00);
    proof {
        assert(v@ =~= spec_api_revision_raw());
    }
    v
}

/// Law: the exposed revision text, re-encoded to its original
/// null-terminated byte form, equals the firmware engine's raw identifier
/// bytes exactly — byte `i` of the raw form is character `i` of the text,
/// and the one extra byte is the terminator.
pub proof fn lemma_api_revision_round_trip()
    ensures
        spec_api_revision_raw().len() == API_REVISION@.len() + 1,
        forall|i: int|
            0 <= i < API_REVISION@.len() ==> spec_api_revision_raw()[i] == API_REVISION@[i] as u8,
        spec_api_revision_raw().last() == 0u8,
{
    reveal_strlit("VL53L5CX_2.0.0");
}

} // verus!
