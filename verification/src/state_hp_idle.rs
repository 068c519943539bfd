//! The firmware-initialized, idle phase of the sensor lifecycle.

use vstd::prelude::*;

use crate::Error;
use crate::Platform;
use crate::config::FirmwareEngine;
use crate::config::VL53L5CX_Configuration;
use crate::config::status_to_result;
use crate::state_ranging::State_Ranging;

verus! {

/// The sensor with firmware uploaded and configured, not yet ranging.
///
/// Holds the fully initialized configuration record — and with it the
/// caller's transport — by exclusive ownership. The only way onward is
/// [`State_HP_Idle::start_ranging`], which consumes this value, so a
/// stale idle phase cannot be used once the transition has happened.
pub struct State_HP_Idle<P: Platform> {
    /// The fully initialized configuration record, carried unchanged from
    /// the transition that produced this phase.
    pub uld: VL53L5CX_Configuration<P>,
}

impl<P: Platform> State_HP_Idle<P> {
    /// Wraps a configuration record that the firmware engine has fully
    /// initialized.
    pub fn new(uld: VL53L5CX_Configuration<P>) -> (r: Self)
        ensures
            r.uld == uld,
    {
        State_HP_Idle { uld }
    }

    /// Starts a ranging session through the firmware engine — its
    /// start entry point is invoked exactly once — consuming the idle
    /// phase. On a [`crate::ST_OK`] status the record moves into the
    /// ranging phase; on any other status the session did not start, the
    /// record is discarded, and exactly that status is the error.
    pub fn start_ranging<E: FirmwareEngine<P>>(self, engine: &mut E) -> (r: Result<
        State_Ranging<P>,
        Error,
    >)
        ensures
            final(engine).statuses().len() == old(engine).statuses().len() + 1,
            r is Ok <==> final(engine).statuses().last() == crate::ST_OK,
            r matches Err(e) ==> e == crate::Error(final(engine).statuses().last()),
    {
        let mut uld = self.uld;
        let status = engine.start_ranging(&mut uld);
        match status_to_result(status) {
            Ok(()) => Ok(State_Ranging::new(uld)),
            Err(e) => Err(e),
        }
    }
}

} // verus!
