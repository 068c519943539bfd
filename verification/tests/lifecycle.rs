//! The configuration record bridge and the phase-typed lifecycle,
//! exercised with stub transports and stub firmware engines.

use vl53l5cx_uld::config::{status_to_result, FirmwareEngine, VL53L5CX_Configuration};
use vl53l5cx_uld::{Error, Platform, ST_OK, VL53L5CX};

/// A transport that always answers the expected identity and counts the
/// operations routed through it.
struct QuietBus {
    reads: usize,
    writes: usize,
    delays: usize,
}

impl QuietBus {
    fn new() -> QuietBus {
        QuietBus { reads: 0, writes: 0, delays: 0 }
    }
}

impl Platform for QuietBus {
    fn rd_bytes(&mut self, _index: u16, buf: &mut [u8]) -> Result<(), ()> {
        self.reads += 1;
        if buf.len() >= 2 {
            buf[0] = 0xf0;
            buf[1] = 0x02;
        }
        Ok(())
    }

    fn wr_bytes(&mut self, _index: u16, _vs: &[u8]) -> Result<(), ()> {
        self.writes += 1;
        Ok(())
    }

    fn delay_ms(&mut self, _ms: u32) {
        self.delays += 1;
    }

    fn addr_changed(&mut self, _new_addr_8bit: u8) {}
}

/// A firmware-engine stub programmed with the status codes its entry
/// points return. On init it records the bookkeeping counters it found in
/// the record, exercises a transport callback, and populates the counters
/// like the vendor engine would.
struct StubEngine {
    init_status: u8,
    start_status: u8,
    stop_status: u8,
    seen_streamcount: Option<u8>,
    seen_data_read_size: Option<u32>,
    init_calls: usize,
}

impl StubEngine {
    fn with_statuses(init_status: u8, start_status: u8, stop_status: u8) -> StubEngine {
        StubEngine {
            init_status,
            start_status,
            stop_status,
            seen_streamcount: None,
            seen_data_read_size: None,
            init_calls: 0,
        }
    }
}

impl<P: Platform> FirmwareEngine<P> for StubEngine {
    fn init(&mut self, cfg: &mut VL53L5CX_Configuration<P>) -> u8 {
        self.init_calls += 1;
        // What the bridge left in the record before the engine runs.
        self.seen_streamcount = Some(cfg.streamcount);
        self.seen_data_read_size = Some(cfg.data_read_size);
        // Callback re-entry into the host's transport, as the vendor
        // engine does for every byte transferred and every delay.
        let _ = cfg.platform.wr_bytes(0x7fff, &[0x02]);
        cfg.platform.delay_ms(1);
        if self.init_status == 0 {
            // The engine finishes populating the record on success.
            cfg.streamcount = 0;
            cfg.data_read_size = 0;
        }
        self.init_status
    }

    fn start_ranging(&mut self, cfg: &mut VL53L5CX_Configuration<P>) -> u8 {
        cfg.streamcount = cfg.streamcount.wrapping_add(1);
        self.start_status
    }

    fn stop_ranging(&mut self, _cfg: &mut VL53L5CX_Configuration<P>) -> u8 {
        self.stop_status
    }
}

fn confirmed() -> VL53L5CX<QuietBus> {
    VL53L5CX::ping_new(QuietBus::new()).expect("stub identity must confirm")
}

#[test]
fn populate_forces_sentinel_counters() {
    let cfg = VL53L5CX_Configuration::populate(QuietBus::new());
    assert_eq!(cfg.streamcount, u8::MAX);
    assert_eq!(cfg.data_read_size, u32::MAX);
    assert_eq!(cfg.is_auto_stop_enabled, 0);
}

#[test]
fn populate_leaves_buffers_blank_and_sized() {
    let cfg = VL53L5CX_Configuration::populate(QuietBus::new());
    assert_eq!(cfg.offset_data.len(), 488);
    assert_eq!(cfg.xtalk_data.len(), 776);
    assert_eq!(cfg.temp_buffer.len(), 1452);
    assert!(cfg.offset_data.iter().all(|b| *b == 0));
    assert!(cfg.xtalk_data.iter().all(|b| *b == 0));
    assert!(cfg.temp_buffer.iter().all(|b| *b == 0));
}

#[test]
fn engine_observes_sentinels_before_initialization() {
    // Immediately after field population but before the firmware-engine
    // call, the two bookkeeping counters hold their sentinel values: the
    // engine itself reads them back at the moment it is entered.
    let mut engine = StubEngine::with_statuses(ST_OK, ST_OK, ST_OK);
    let idle = confirmed().init(&mut engine).expect("init must succeed");
    assert_eq!(engine.seen_streamcount, Some(u8::MAX));
    assert_eq!(engine.seen_data_read_size, Some(u32::MAX));
    // On success the engine finished populating the counters.
    assert_eq!(idle.uld.streamcount, 0);
    assert_eq!(idle.uld.data_read_size, 0);
}

#[test]
fn engine_callbacks_reach_the_embedded_transport() {
    let mut engine = StubEngine::with_statuses(ST_OK, ST_OK, ST_OK);
    let idle = confirmed().init(&mut engine).expect("init must succeed");
    // Three handshake writes happened before init; the engine's callback
    // added one write and one delay through the embedded transport.
    assert_eq!(idle.uld.platform.writes, 3);
    assert_eq!(idle.uld.platform.delays, 1);
}

#[test]
fn init_failure_reports_engine_code_and_yields_no_idle_value() {
    let mut engine = StubEngine::with_statuses(0x42, ST_OK, ST_OK);
    match confirmed().init(&mut engine) {
        Err(e) => assert_eq!(e, Error(0x42)),
        Ok(_) => panic!("a failing engine must fail initialization"),
    }
}

#[test]
fn init_failure_is_idempotent_across_confirmed_values() {
    // An engine whose init always returns the same fixed non-zero code
    // always yields that same error signal.
    let mut engine = StubEngine::with_statuses(0x42, ST_OK, ST_OK);
    for _ in 0..3 {
        match confirmed().init(&mut engine) {
            Err(e) => assert_eq!(e, Error(0x42)),
            Ok(_) => panic!("a failing engine must fail initialization"),
        }
    }
    assert_eq!(engine.init_calls, 3);
}

#[test]
fn lifecycle_chain_idle_ranging_idle() {
    let mut engine = StubEngine::with_statuses(ST_OK, ST_OK, ST_OK);
    let idle = confirmed().init(&mut engine).expect("init must succeed");
    let ranging = idle.start_ranging(&mut engine).expect("start must succeed");
    // The record moved into the ranging phase; the engine bumped its
    // counter on the way.
    assert_eq!(ranging.uld.streamcount, 1);
    let idle_again = ranging.stop(&mut engine).expect("stop must succeed");
    assert_eq!(idle_again.uld.streamcount, 1);
}

#[test]
fn failed_start_ranging_reports_engine_code() {
    let mut engine = StubEngine::with_statuses(ST_OK, 0x07, ST_OK);
    let idle = confirmed().init(&mut engine).expect("init must succeed");
    match idle.start_ranging(&mut engine) {
        Err(e) => assert_eq!(e, Error(0x07)),
        Ok(_) => panic!("a failing engine must fail the transition"),
    }
}

#[test]
fn failed_stop_ranging_reports_engine_code() {
    let mut engine = StubEngine::with_statuses(ST_OK, ST_OK, 0x09);
    let idle = confirmed().init(&mut engine).expect("init must succeed");
    let ranging = idle.start_ranging(&mut engine).expect("start must succeed");
    match ranging.stop(&mut engine) {
        Err(e) => assert_eq!(e, Error(0x09)),
        Ok(_) => panic!("a failing engine must fail the transition"),
    }
}

#[test]
fn status_mapping_is_exact() {
    assert_eq!(status_to_result(ST_OK), Ok(()));
    assert_eq!(status_to_result(0x01), Err(Error(0x01)));
    assert_eq!(status_to_result(0xff), Err(Error(0xff)));
}

#[test]
fn complete_init_passes_record_through_on_success() {
    let cfg = VL53L5CX_Configuration::populate(QuietBus::new());
    match VL53L5CX_Configuration::complete_init(cfg, ST_OK) {
        Ok(c) => {
            assert_eq!(c.streamcount, u8::MAX);
            assert_eq!(c.data_read_size, u32::MAX);
        },
        Err(_) => panic!("status 0 must succeed"),
    }
}

#[test]
fn complete_init_discards_record_on_failure() {
    let cfg = VL53L5CX_Configuration::populate(QuietBus::new());
    match VL53L5CX_Configuration::complete_init(cfg, 0x09) {
        Err(e) => assert_eq!(e, Error(0x09)),
        Ok(_) => panic!("a non-zero status must fail"),
    }
}
