//! The ranging-active phase of the sensor lifecycle.

use vstd::prelude::*;

use crate::Error;
use crate::Platform;
use crate::config::FirmwareEngine;
use crate::config::VL53L5CX_Configuration;
use crate::config::status_to_result;
use crate::state_hp_idle::State_HP_Idle;

verus! {

/// The sensor actively ranging.
///
/// Only reachable from [`State_HP_Idle`], and only returns to it: there
/// is no path back to the identity-confirmed or unconnected phases, since
/// the device identity need not be re-verified once firmware is running.
pub struct State_Ranging<P: Platform> {
    /// The configuration record of the running session, carried unchanged
    /// from the transition that produced this phase.
    pub uld: VL53L5CX_Configuration<P>,
}

impl<P: Platform> State_Ranging<P> {
    /// Wraps the configuration record of a session the firmware engine
    /// has started.
    pub fn new(uld: VL53L5CX_Configuration<P>) -> (r: Self)
        ensures
            r.uld == uld,
    {
        State_Ranging { uld }
    }

    /// Stops the ranging session through the firmware engine — its stop
    /// entry point is invoked exactly once — consuming the ranging phase.
    /// On a [`crate::ST_OK`] status the record moves back into the idle
    /// phase; on any other status the record is discarded and exactly
    /// that status is the error.
    pub fn stop<E: FirmwareEngine<P>>(self, engine: &mut E) -> (r: Result<
        State_HP_Idle<P>,
        Error,
    >)
        ensures
            final(engine).statuses().len() == old(engine).statuses().len() + 1,
            r is Ok <==> final(engine).statuses().last() == crate::ST_OK,
            r matches Err(e) ==> e == crate::Error(final(engine).statuses().last()),
    {
        let mut uld = self.uld;
        let status = engine.stop_ranging(&mut uld);
        match status_to_result(status) {
            Ok(()) => Ok(State_HP_Idle::new(uld)),
            Err(e) => Err(e),
        }
    }
}

} // verus!
