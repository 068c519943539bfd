//! The Configuration Record Bridge: the fixed-layout record the firmware
//! engine works on, and its population and initialization path.

use vstd::prelude::*;

use crate::Error;
use crate::Platform;
use crate::ST_OK;

verus! {

/// The configuration record shared between this core and the firmware
/// engine.
///
/// The record embeds the caller's transport so that the engine can call
/// back into it for every byte transferred and every delay; the embedding
/// slot is a typed field, so its size and alignment are enforced by the
/// compiler at construction, and a misaligned or wrongly sized slot is
/// unrepresentable rather than a runtime condition. The remaining fields
/// are bookkeeping counters and working buffers owned entirely by the
/// firmware engine: once the record has been handed to
/// [`FirmwareEngine::init`], the engine is trusted to finish populating
/// every remaining byte, and this core claims nothing about their
/// contents afterwards.
///
/// The fields are public because the firmware engine — an external
/// collaborator implemented outside this library — populates and reads
/// them directly.
pub struct VL53L5CX_Configuration<P: Platform> {
    /// The embedded transport, opaque to the firmware engine, echoed back
    /// on every callback.
    pub platform: P,
    /// Bookkeeping counter owned by the firmware engine. Forced to the
    /// sentinel `u8::MAX` before the engine runs, so an uninitialized
    /// read is detectable.
    pub streamcount: u8,
    /// Bookkeeping counter owned by the firmware engine. Forced to the
    /// sentinel `u32::MAX` before the engine runs.
    pub data_read_size: u32,
    /// Per-device offset calibration data, read from the sensor by the
    /// engine.
    pub offset_data: [u8; 488],
    /// Cross-talk correction data, programmed into the sensor by the
    /// engine.
    pub xtalk_data: [u8; 776],
    /// Working memory the engine stages transfers in.
    pub temp_buffer: [u8; 1452],
    /// Single-item state flag owned by the engine.
    pub is_auto_stop_enabled: u8,
}

/// The narrow call surface of the vendor-owned firmware engine.
///
/// Implemented by the surrounding application (on hardware, by the vendor
/// blob; in tests, by a stub). Each entry point receives the configuration
/// record by exclusive reference, performs its own sequence of transport
/// callbacks through the embedded [`Platform`], and returns a single-byte
/// status code where [`ST_OK`] means success and any other value is an
/// opaque failure code. Nothing is promised of the codes or of what an
/// entry point leaves in the record: the verified core decides on the
/// returned status alone, whatever came back.
///
/// The ghost status log [`FirmwareEngine::statuses`] is the trait's
/// specification model: each entry point appends the status code it
/// returns, so contracts over the engine can say that an entry point was
/// invoked, how often, and with which outcome.
pub trait FirmwareEngine<P: Platform> {
    /// The ghost log of the status codes this engine's entry points have
    /// returned, oldest first. The default stands in for implementations
    /// written outside verified code, which have no ghost state; a
    /// verified implementation overrides it with an abstraction of its
    /// own state.
    open spec fn statuses(&self) -> Seq<u8> {
        Seq::empty()
    }

    /// Resets the sensor, uploads the firmware, reads factory calibration
    /// data into the record, and programs the default configuration and
    /// cross-talk tables.
    fn init(&mut self, cfg: &mut VL53L5CX_Configuration<P>) -> (r: u8)
        ensures
            final(self).statuses() =~= old(self).statuses().push(r),
    ;

    /// Starts a ranging session.
    fn start_ranging(&mut self, cfg: &mut VL53L5CX_Configuration<P>) -> (r: u8)
        ensures
            final(self).statuses() =~= old(self).statuses().push(r),
    ;

    /// Stops the current ranging session.
    fn stop_ranging(&mut self, cfg: &mut VL53L5CX_Configuration<P>) -> (r: u8)
        ensures
            final(self).statuses() =~= old(self).statuses().push(r),
    ;
}

/// Maps a status code of the firmware engine to the core's result type:
/// success exactly on [`ST_OK`], and every other code passed through
/// unchanged as the [`Error`] value.
pub fn status_to_result(status: u8) -> (r: Result<(), Error>)
    ensures
        r is Ok <==> status == ST_OK,
        r matches Err(e) ==> e == Error(status),
{
    if status == ST_OK {
        Ok(())
    } else {
        Err(Error(status))
    }
}

impl<P: Platform> VL53L5CX_Configuration<P> {
    /// Populates a fresh configuration record around the caller's
    /// transport, before any firmware-engine involvement: the transport
    /// is moved into its embedding slot, the two engine-owned bookkeeping
    /// counters are forced to their sentinel "unset" values (the maximum
    /// representable value for their width, so an uninitialized read is
    /// detectable), and the working buffers are blank.
    pub fn populate(p: P) -> (r: Self)
        ensures
            r.platform == p,
            r.streamcount == u8::MAX,
            r.data_read_size == u32::MAX,
            r.is_auto_stop_enabled == 0,
            forall|i: int| 0 <= i < r.offset_data@.len() ==> r.offset_data@[i] == 0u8,
            forall|i: int| 0 <= i < r.xtalk_data@.len() ==> r.xtalk_data@[i] == 0u8,
            forall|i: int| 0 <= i < r.temp_buffer@.len() ==> r.temp_buffer@[i] == 0u8,
    {
        VL53L5CX_Configuration {
            platform: p,
            streamcount: u8::MAX,
            data_read_size: u32::MAX,
            offset_data: vstd::array::array_fill_for_copy_types(0u8),
            xtalk_data: vstd::array::array_fill_for_copy_types(0u8),
            temp_buffer: vstd::array::array_fill_for_copy_types(0u8),
            is_auto_stop_enabled: 0,
        }
    }

    /// Interprets the firmware engine's initialization status: on
    /// [`ST_OK`] the record — now fully populated by the engine — is
    /// returned as the initialized value; on any other code the record is
    /// discarded and that code is the error, so no partially initialized
    /// record is ever exposed.
    pub fn complete_init(cfg: Self, status: u8) -> (r: Result<Self, Error>)
        ensures
            status == ST_OK ==> (r matches Ok(c) && c == cfg),
            status != ST_OK ==> (r matches Err(e) && e == Error(status)),
    {
        if status == ST_OK {
            Ok(cfg)
        } else {
            Err(Error(status))
        }
    }

    /// Produces a fully firmware-initialized configuration record from a
    /// caller-owned transport, or fails cleanly.
    ///
    /// The record is populated ([`Self::populate`]) and handed by
    /// exclusive reference into the engine's initialization entry point —
    /// invoked exactly once, during which the engine performs zero or
    /// more reads, writes and waits through the embedded transport. On a
    /// [`ST_OK`] return the record is wrapped; on any other code the
    /// partially initialized record is discarded and never exposed: the
    /// caller receives exactly that code as the error, whatever the
    /// engine left behind.
    pub fn init_with<E: FirmwareEngine<P>>(p: P, engine: &mut E) -> (r: Result<Self, Error>)
        ensures
            final(engine).statuses().len() == old(engine).statuses().len() + 1,
            r is Ok <==> final(engine).statuses().last() == ST_OK,
            r matches Err(e) ==> e == Error(final(engine).statuses().last()),
    {
        let mut cfg = Self::populate(p);
        let status = engine.init(&mut cfg);
        Self::complete_init(cfg, status)
    }
}

} // verus!
