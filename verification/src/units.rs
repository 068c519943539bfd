//! Unit newtypes for the quantities the sensor configuration deals in.

use vstd::prelude::*;

verus! {

/// A frequency in hertz. The sensor accepts at most 15 Hz or 60 Hz
/// depending on resolution, so a byte is wide enough.
#[derive(Clone, Copy, Debug, PartialEq, Eq, Structural)]
pub struct Hz(pub u8);

/// A duration in milliseconds. Wide enough for about a minute, which
/// covers every delay the driver asks for.
#[derive(Clone, Copy, Debug, PartialEq, Eq, Structural)]
pub struct Ms(pub u16);

} // verus!
