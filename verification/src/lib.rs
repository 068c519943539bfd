//! Safety-typed control layer for a multi-zone time-of-flight distance
//! sensor driven by a vendor-owned firmware engine.
//!
//! The library establishes a verified communication channel to the sensor
//! over a byte-oriented bus (the caller supplies the [`Platform`]
//! transport), drives the sensor through a strict power-up /
//! configuration / ranging lifecycle, and lets an arbitrary transport
//! implementation be plugged in without the firmware layer knowing its
//! concrete type.
//!
//! The lifecycle is a linear chain of phase types, each consumed by its
//! transition so that an operation illegal for the current phase cannot
//! even be expressed:
//!
//! * a caller-supplied transport, wrapped by [`VL53L5CX::ping_new`] after
//!   the identity handshake confirms a live device;
//! * [`VL53L5CX`] (identity confirmed), consumed by [`VL53L5CX::init`];
//! * [`State_HP_Idle`] (firmware initialized, idle), consumed by
//!   [`State_HP_Idle::start_ranging`];
//! * [`State_Ranging`] (ranging active), consumed by
//!   [`State_Ranging::stop`] which returns to the idle phase.

#![allow(non_snake_case)]
#![allow(non_camel_case_types)]

pub mod config;
pub mod revision;
pub mod state_hp_idle;
pub mod state_ranging;
pub mod units;

use vstd::prelude::*;

use crate::config::FirmwareEngine;
use crate::config::VL53L5CX_Configuration;
use crate::state_hp_idle::State_HP_Idle;

verus! {

/// The opaque failure signal of the driver.
///
/// Two failure domains are folded into the single byte: codes returned by
/// the firmware engine, and the sentinel [`ST_ERROR`] raised locally for a
/// transport or identity failure during the handshake (the firmware engine
/// has no vocabulary for a failure that precedes its own initialization).
/// The numeric value of a firmware code is passed through unchanged; the
/// core does not invent a taxonomy for it.
#[derive(Clone, Copy, Debug, PartialEq, Eq, Structural)]
pub struct Error(pub u8);

/// Status code with which the firmware engine signals success.
pub const ST_OK: u8 = 0x00;

/// Status code used as the locally raised "transport/identity failure"
/// sentinel of [`Error`].
pub const ST_ERROR: u8 = 0xff;

/// The vendor factory-default 8-bit bus address of the device.
pub const DEFAULT_I2C_ADDR_8BIT: u8 = 0x52;

/// Device id with which a live sensor answers the identity handshake.
pub const EXPECTED_DEVICE_ID: u8 = 0xf0;

/// Revision id with which a live sensor answers the identity handshake.
pub const EXPECTED_REVISION_ID: u8 = 0x02;

/// One bus operation attempted on a [`Platform`], as recorded in the
/// transport's ghost operation log. Failing operations are recorded too,
/// with `ok` false.
pub enum BusOp {
    /// An attempted write of `bytes` at register `index`.
    Write { index: u16, bytes: Seq<u8>, ok: bool },
    /// An attempted read at register `index` that left `bytes` in the
    /// caller's buffer.
    Read { index: u16, bytes: Seq<u8>, ok: bool },
    /// A blocking delay of `ms` milliseconds.
    Delay { ms: u32 },
    /// An address-change notification.
    AddrChange { addr: u8 },
}

impl BusOp {
    /// Whether the operation succeeded. Delays and address-change
    /// notifications cannot fail.
    pub open spec fn succeeded(&self) -> bool {
        match self {
            BusOp::Write { ok, .. } => *ok,
            BusOp::Read { ok, .. } => *ok,
            BusOp::Delay { .. } => true,
            BusOp::AddrChange { .. } => true,
        }
    }
}

/// The transport capability: how the surrounding application moves bytes
/// on the physical bus and performs blocking delays.
///
/// Implemented by the application, consumed by this library and by the
/// firmware engine's callbacks. Every bus operation may fail with an
/// unparameterized signal, because the failure domain of an arbitrary bus
/// is not known here. An implementation is bound to exactly one physical
/// device address at a time; [`Platform::addr_changed`] notifies it when
/// the firmware engine reassigns that address. No operation may be invoked
/// concurrently with another on the same instance.
///
/// The ghost operation log [`Platform::ops`] is the trait's specification
/// model: each method appends exactly the entry describing the operation
/// just attempted, so contracts over a transport can speak of which bus
/// operations happened and in what order. Nothing is assumed about the
/// bytes a device answers with or about which operations fail.
pub trait Platform {
    /// The ghost log of every bus operation attempted on this transport,
    /// oldest first. The default stands in for implementations written
    /// outside verified code, which have no ghost state; a verified
    /// implementation overrides it with an abstraction of its own state.
    open spec fn ops(&self) -> Seq<BusOp> {
        Seq::empty()
    }

    /// Fills `buf` from the device, starting at register `index`. The
    /// buffer keeps its length: exactly `buf.len()` bytes are transferred.
    fn rd_bytes(&mut self, index: u16, buf: &mut [u8]) -> (r: Result<(), ()>)
        ensures
            final(self).ops() =~= old(self).ops().push(
                BusOp::Read { index, bytes: final(buf)@, ok: r is Ok },
            ),
    ;

    /// Writes `vs` to the device, starting at register `index`.
    fn wr_bytes(&mut self, index: u16, vs: &[u8]) -> (r: Result<(), ()>)
        ensures
            final(self).ops() =~= old(self).ops().push(
                BusOp::Write { index, bytes: vs@, ok: r is Ok },
            ),
    ;

    /// Blocks the calling context for at least `ms` milliseconds. Never
    /// fails.
    fn delay_ms(&mut self, ms: u32)
        ensures
            final(self).ops() =~= old(self).ops().push(BusOp::Delay { ms }),
    ;

    /// Notification that the device now identifies with `new_addr_8bit`,
    /// so the transport can retarget subsequent operations. No return
    /// value.
    fn addr_changed(&mut self, new_addr_8bit: u8)
        ensures
            final(self).ops() =~= old(self).ops().push(
                BusOp::AddrChange { addr: new_addr_8bit },
            ),
    ;
}

/// Whether `(dev_id, rev_id)` is the identity a live sensor must answer
/// with: exactly `(0xf0, 0x02)`.
pub open spec fn spec_identity_matches(dev_id: u8, rev_id: u8) -> bool {
    dev_id == EXPECTED_DEVICE_ID && rev_id == EXPECTED_REVISION_ID
}

/// Decides the identity handshake: accepts exactly the pair
/// `(0xf0, 0x02)` and rejects every other pair.
pub fn identity_matches(dev_id: u8, rev_id: u8) -> (r: bool)
    ensures
        r == spec_identity_matches(dev_id, rev_id),
{
    dev_id == EXPECTED_DEVICE_ID && rev_id == EXPECTED_REVISION_ID
}

/// The three bus operations of a handshake that ran to completion and in
/// which the device answered `(dev_id, rev_id)`: the bank-select write,
/// the two-byte identity read, and the write restoring the bank the
/// firmware engine expects.
pub open spec fn spec_handshake_ops(dev_id: u8, rev_id: u8) -> Seq<BusOp> {
    seq![
        BusOp::Write { index: 0x7fff, bytes: seq![0x00u8], ok: true },
        BusOp::Read { index: 0x0000, bytes: seq![dev_id, rev_id], ok: true },
        BusOp::Write { index: 0x7fff, bytes: seq![0x02u8], ok: true },
    ]
}

/// The operations a handshake attempt appends when a bus operation fails:
/// a prefix of the handshake sequence — in order, each operation attempted
/// at most once — whose last entry is the operation that failed, with
/// nothing attempted after it.
pub open spec fn spec_handshake_failure(added: Seq<BusOp>) -> bool {
    &&& 1 <= added.len() <= 3
    &&& !added.last().succeeded()
    &&& forall|i: int| 0 <= i < added.len() - 1 ==> (#[trigger] added[i]).succeeded()
    &&& (added[0] matches BusOp::Write { index, bytes, .. } && index == 0x7fff && bytes
        =~= seq![0x00u8])
    &&& added.len() >= 2 ==> (added[1] matches BusOp::Read { index, bytes, .. } && index == 0x0000
        && bytes.len() == 2)
    &&& added.len() == 3 ==> (added[2] matches BusOp::Write { index, bytes, .. } && index == 0x7fff
        && bytes =~= seq![0x02u8])
}

/// The identity-confirmed phase: a sensor that has answered the identity
/// handshake, holding the caller's transport and not yet initialized.
///
/// Created only by [`VL53L5CX::ping_new`]; consumed by [`VL53L5CX::init`],
/// which moves the transport into the configuration record, so the caller
/// keeps no direct access to it afterwards.
pub struct VL53L5CX<P: Platform> {
    /// The caller's transport, confirmed to reach a live sensor.
    pub p: P,
}

impl<P: Platform> VL53L5CX<P> {
    /// Runs the identity handshake on the bus and, only if a live sensor
    /// answered with the expected identity, wraps the transport in the
    /// confirmed phase: on success, exactly the three handshake
    /// operations ran on the transport, in order, and the identity read
    /// answered exactly `(0xf0, 0x02)` — any other pair is rejected. Any
    /// transport failure or identity mismatch is folded into the locally
    /// raised [`ST_ERROR`] sentinel, since no firmware-level error
    /// vocabulary exists yet.
    pub fn ping_new(p: P) -> (r: Result<Self, Error>)
        ensures
            r matches Err(e) ==> e == Error(ST_ERROR),
            r matches Ok(v) ==> v.p.ops() =~= p.ops() + spec_handshake_ops(
                EXPECTED_DEVICE_ID,
                EXPECTED_REVISION_ID,
            ),
    {
        let mut p = p;
        match Self::ping(&mut p) {
            Err(()) => Err(Error(ST_ERROR)),
            Ok(()) => Ok(VL53L5CX { p }),
        }
    }

    /// Transitions from identity-confirmed to firmware-initialized idle,
    /// consuming this phase: the transport moves into the configuration
    /// record, the firmware engine's initialization entry point runs on
    /// it exactly once, and on a [`ST_OK`] return the initialized record
    /// is owned by the returned idle phase. On any other return exactly
    /// that status code is the error and no idle value exists at all.
    pub fn init<E: FirmwareEngine<P>>(self, engine: &mut E) -> (r: Result<State_HP_Idle<P>, Error>)
        ensures
            final(engine).statuses().len() == old(engine).statuses().len() + 1,
            r is Ok <==> final(engine).statuses().last() == ST_OK,
            r matches Err(e) ==> e == Error(final(engine).statuses().last()),
    {
        match VL53L5CX_Configuration::init_with(self.p, engine) {
            Ok(uld) => Ok(State_HP_Idle::new(uld)),
            Err(e) => Err(e),
        }
    }

    /// Runs the identity handshake and decides it: succeeds exactly when
    /// every bus operation succeeded and the pair read back matches the
    /// expected identity; fails exactly when a bus operation failed (and
    /// nothing was attempted after it) or the full handshake ran and the
    /// pair read back was not the expected identity. Whatever the
    /// outcome, nothing beyond the three handshake operations is ever
    /// attempted.
    fn ping(p: &mut P) -> (r: Result<(), ()>)
        ensures
            r is Ok ==> final(p).ops() =~= old(p).ops() + spec_handshake_ops(
                EXPECTED_DEVICE_ID,
                EXPECTED_REVISION_ID,
            ),
            r is Err ==> ({
                let added = final(p).ops().skip(old(p).ops().len() as int);
                &&& final(p).ops() =~= old(p).ops() + added
                &&& (spec_handshake_failure(added) || (exists|dev_id: u8, rev_id: u8|
                    !spec_identity_matches(dev_id, rev_id) && added =~= #[trigger] spec_handshake_ops(
                        dev_id,
                        rev_id,
                    )))
            }),
    {
        match vl53l5cx_ping(p) {
            Err(()) => Err(()),
            Ok((dev_id, rev_id)) => {
                if identity_matches(dev_id, rev_id) {
                    Ok(())
                } else {
                    Err(())
                }
            },
        }
    }
}

/// The identity handshake at bus level, with no firmware-engine
/// involvement — it must work before firmware and parameters are
/// initialized. Performs the fixed, non-negotiable bank-select sequence:
///
/// 1. write the bank-select value `0x00` to register `0x7fff`;
/// 2. read two bytes at register `0x0000` — `(device id, revision id)`;
/// 3. write the bank-select value `0x02` to register `0x7fff`, restoring
///    the bank the firmware engine expects.
///
/// Returns the pair read, or fails as soon as a bus operation fails,
/// performing none of the operations after the failed one: on success
/// exactly the three described operations ran, in order, and on failure
/// the attempted operations are a prefix of that sequence whose last
/// entry is the one that failed.
pub fn vl53l5cx_ping<P: Platform>(pl: &mut P) -> (r: Result<(u8, u8), ()>)
    ensures
        r matches Ok(pair) ==> final(pl).ops() =~= old(pl).ops() + spec_handshake_ops(
            pair.0,
            pair.1,
        ),
        r is Err ==> ({
            let added = final(pl).ops().skip(old(pl).ops().len() as int);
            &&& final(pl).ops() =~= old(pl).ops() + added
            &&& spec_handshake_failure(added)
        }),
{
    let bank_default: [u8; 1] = [0x00];
    let bank_firmware: [u8; 1] = [0x02];
    let mut buf: [u8; 2] = [u8::MAX, u8::MAX];
    proof {
        assert(bank_default@ =~= seq![0x00u8]);
        assert(bank_firmware@ =~= seq![0x02u8]);
    }

    if let Err(()) = pl.wr_bytes(0x7fff, bank_default.as_slice()) {
        return Err(());
    }
    if let Err(()) = pl.rd_bytes(0x0000, vstd::array::ref_mut_array_unsizing_coercion(&mut buf)) {
        return Err(());
    }
    if let Err(()) = pl.wr_bytes(0x7fff, bank_firmware.as_slice()) {
        return Err(());
    }

    proof {
        assert(buf@ =~= seq![buf@[0], buf@[1]]);
    }
    Ok((buf[0], buf[1]))
}

} // verus!
