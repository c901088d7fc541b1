//! Tests of the device controller against the scripted bus: exact traffic
//! of every operation, stop-at-first-failure behaviour, and the lock state
//! left behind by a failed initialization.

use acs37800::bus::BusOp;
use acs37800::driver::{Acs37800, CurrentSensingRange};
use acs37800::sim::{SimBus, SimFault};

const DEV: u8 = 0x61;
const CODE: [u8; 4] = [0x6E, 0x65, 0x70, 0x4F];
const ZERO: [u8; 4] = [0, 0, 0, 0];

fn driver(bus: SimBus) -> Acs37800<SimBus, SimFault> {
    Acs37800::new(bus, DEV)
}

fn op_ok(op: &BusOp) -> bool {
    match op {
        BusOp::Write { ok, .. } => *ok,
        BusOp::Read { ok, .. } => *ok,
    }
}

fn expect_write(op: &BusOp, data: &[u8], ok: bool) {
    match op {
        BusOp::Write { addr, data: d, ok: o } => {
            assert_eq!(*addr, DEV);
            assert_eq!(&d[..], data);
            assert_eq!(*o, ok);
        },
        BusOp::Read { .. } => panic!("expected a write transaction"),
    }
}

fn expect_read(op: &BusOp, data: &[u8], ok: bool) {
    match op {
        BusOp::Read { addr, data: d, ok: o } => {
            assert_eq!(*addr, DEV);
            assert_eq!(&d[..], data);
            assert_eq!(*o, ok);
        },
        BusOp::Write { .. } => panic!("expected a read transaction"),
    }
}

/// The lock state implied by a transaction record: open after the last
/// completed write to the access code register carried a nonzero payload.
fn lock_open(ops: &[BusOp]) -> bool {
    let mut open = false;
    let mut i = 0;
    while i + 1 < ops.len() {
        if let BusOp::Write { data, ok: true, .. } = &ops[i] {
            if data[..] == [0x2F] {
                if let BusOp::Write { data: payload, ok: true, .. } = &ops[i + 1] {
                    if payload.len() == 4 {
                        open = payload.iter().any(|b| *b != 0);
                        i += 2;
                        continue;
                    }
                }
            }
        }
        i += 1;
    }
    open
}

fn scripted_init_bus() -> SimBus {
    let mut bus = SimBus::new();
    bus.push_read(vec![0x12, 0x34, 0x56, 0x78]);
    bus.push_read(vec![0, 0, 0, 0]);
    bus.push_read(vec![0, 0, 0, 0]);
    bus
}

#[test]
fn init_issues_exact_transaction_sequence() {
    let mut drv = driver(scripted_init_bus());
    assert!(drv.init().is_ok());
    let bus = drv.release();
    let ops = bus.ops();
    assert_eq!(ops.len(), 24);
    // lock open, read-modify-write of 0x0B, lock close
    expect_write(&ops[0], &[0x2F], true);
    expect_write(&ops[1], &CODE, true);
    expect_write(&ops[2], &[0x0B], true);
    expect_read(&ops[3], &[0x12, 0x34, 0x56, 0x78], true);
    expect_write(&ops[4], &[0x0B], true);
    expect_write(&ops[5], &[0x78, 0xD6, 0x34, 0x12], true);
    expect_write(&ops[6], &[0x2F], true);
    expect_write(&ops[7], &ZERO, true);
    // first oversampling parameter, its own lock open and close
    expect_write(&ops[8], &[0x2F], true);
    expect_write(&ops[9], &CODE, true);
    expect_write(&ops[10], &[0x0C], true);
    expect_read(&ops[11], &ZERO, true);
    expect_write(&ops[12], &[0x0C], true);
    expect_write(&ops[13], &[0, 0, 0, 126], true);
    expect_write(&ops[14], &[0x2F], true);
    expect_write(&ops[15], &ZERO, true);
    // second oversampling parameter, its own lock open and close
    expect_write(&ops[16], &[0x2F], true);
    expect_write(&ops[17], &CODE, true);
    expect_write(&ops[18], &[0x0C], true);
    expect_read(&ops[19], &ZERO, true);
    expect_write(&ops[20], &[0x0C], true);
    expect_write(&ops[21], &[0x00, 0x01, 0xFF, 0x00], true);
    expect_write(&ops[22], &[0x2F], true);
    expect_write(&ops[23], &ZERO, true);
    assert!(!lock_open(&ops[..]));
}

#[test]
fn init_preserves_bits_read_from_0b() {
    // A 0x0B payload with every bit set except the two averaging enables:
    // the write-back must keep all of them and add only those two flags.
    let mut bus = SimBus::new();
    bus.push_read(vec![0xFF, 0xFF, 0x3F, 0xFF]);
    bus.push_read(vec![0, 0, 0, 0]);
    bus.push_read(vec![0, 0, 0, 0]);
    let mut drv = driver(bus);
    assert!(drv.init().is_ok());
    let bus = drv.release();
    expect_write(&bus.ops()[5], &[0xFF, 0xFF, 0xFF, 0xFF], true);
}

#[test]
fn init_fails_at_each_step_without_attempting_more() {
    for k in 0..24 {
        let mut bus = scripted_init_bus();
        bus.fail_at(k);
        let mut drv = driver(bus);
        match drv.init() {
            Ok(()) => panic!("init must fail when transaction {} fails", k),
            Err(e) => assert_eq!(e.step, k),
        }
        let bus = drv.release();
        let ops = bus.ops();
        assert_eq!(ops.len(), k + 1);
        for i in 0..k {
            assert!(op_ok(&ops[i]));
        }
        assert!(!op_ok(&ops[k]));
        // The lock state after the failure follows from exactly which
        // writes were issued: a failure after an unlock write and before
        // the matching zero write leaves the lock open.
        let open = lock_open(&ops[..]);
        let expected_open = match k {
            0 | 1 => false,
            2..=7 => true,
            8 | 9 => false,
            10..=15 => true,
            16 | 17 => false,
            _ => true,
        };
        assert_eq!(open, expected_open, "lock state after failing step {}", k);
    }
}

#[test]
fn get_access_code_absent_only_on_all_zero_register() {
    let mut bus = SimBus::new();
    bus.push_read(vec![0, 0, 0, 0]);
    let mut drv = driver(bus);
    assert_eq!(drv.get_access_code(), Ok(None));

    let mut bus = SimBus::new();
    bus.push_read(vec![0x6E, 0x65, 0x70, 0x4F]);
    let mut drv = driver(bus);
    assert_eq!(drv.get_access_code(), Ok(Some(0x4F70656E)));

    let mut bus = SimBus::new();
    bus.push_read(vec![0x01, 0x00, 0x00, 0x00]);
    let mut drv = driver(bus);
    assert_eq!(drv.get_access_code(), Ok(Some(1)));
}

#[test]
fn get_access_code_reports_transport_failure() {
    let mut bus = SimBus::new();
    bus.fail_at(1);
    let mut drv = driver(bus);
    assert_eq!(drv.get_access_code(), Err(SimFault { step: 1 }));

    let mut bus = SimBus::new();
    bus.fail_at(0);
    let mut drv = driver(bus);
    assert_eq!(drv.get_access_code(), Err(SimFault { step: 0 }));
}

#[test]
fn get_voltage_rms_decodes_low_half() {
    let mut bus = SimBus::new();
    bus.push_read(vec![0xE8, 0x03, 0x2C, 0x01]);
    let mut drv = driver(bus);
    assert_eq!(drv.get_voltage_rms(), Ok(1000));
    let bus = drv.release();
    let ops = bus.ops();
    assert_eq!(ops.len(), 2);
    expect_write(&ops[0], &[0x20], true);
    expect_read(&ops[1], &[0xE8, 0x03, 0x2C, 0x01], true);
}

#[test]
fn get_current_rms_decodes_high_half() {
    let mut bus = SimBus::new();
    bus.push_read(vec![0xE8, 0x03, 0x2C, 0x01]);
    let mut drv = driver(bus);
    assert_eq!(drv.get_current_rms(), Ok(300));
}

#[test]
fn get_power_registers_decode_both_halves() {
    let mut bus = SimBus::new();
    bus.push_read(vec![0x34, 0x01, 0xFF, 0x7F]);
    let mut drv = driver(bus);
    assert_eq!(drv.get_power_active(), Ok(308));
    let mut bus = SimBus::new();
    bus.push_read(vec![0x34, 0x01, 0xFF, 0x7F]);
    let mut drv = driver(bus);
    assert_eq!(drv.get_power_imag(), Ok(0x7FFF));
}

#[test]
fn averaged_and_instant_reads_select_their_registers() {
    let cases: [(u8, fn(&mut Acs37800<SimBus, SimFault>) -> Result<u16, SimFault>); 8] = [
        (0x27, |d| d.get_voltage_avg_1_min()),
        (0x27, |d| d.get_current_avg_1_min()),
        (0x29, |d| d.get_power_avg_1_min()),
        (0x26, |d| d.get_voltage_avg_1_sec()),
        (0x26, |d| d.get_current_avg_1_sec()),
        (0x28, |d| d.get_power_avg_1_sec()),
        (0x2A, |d| d.get_instant_voltage()),
        (0x2A, |d| d.get_instant_current()),
    ];
    for (reg, call) in cases {
        let mut drv = driver(SimBus::new());
        assert_eq!(call(&mut drv), Ok(0));
        let bus = drv.release();
        expect_write(&bus.ops()[0], &[reg], true);
    }
    let mut drv = driver(SimBus::new());
    assert_eq!(drv.get_instant_power(), Ok(0));
    let bus = drv.release();
    expect_write(&bus.ops()[0], &[0x2C], true);
}

#[test]
fn get_sample_num_decodes_ten_bits() {
    let mut bus = SimBus::new();
    bus.push_read(vec![0x09, 0x37, 0xAF, 0x0A]);
    let mut drv = driver(bus);
    assert_eq!(drv.get_sample_num(), Ok(777));
    let bus = drv.release();
    expect_write(&bus.ops()[0], &[0x25], true);
}

#[test]
fn get_status_decodes_flags() {
    let mut bus = SimBus::new();
    bus.push_read(vec![0x75, 0x24, 0x00, 0x00]);
    let mut drv = driver(bus);
    let st = drv.get_status().unwrap();
    assert!(st.zerocrossout);
    assert!(!st.faultout);
    assert!(st.faultlatched);
    assert!(!st.overvoltage);
    assert!(st.undervoltage);
    assert_eq!(st.reserved, 0x123);
    let bus = drv.release();
    expect_write(&bus.ops()[0], &[0x2D], true);
}

#[test]
fn get_power_info_decodes_apparent_power() {
    let mut bus = SimBus::new();
    bus.push_read(vec![0x34, 0x12, 0xA7, 0xAD]);
    let mut drv = driver(bus);
    let info = drv.get_power_info().unwrap();
    assert_eq!(info.papparent, 0x1234);
    assert_eq!(info.pfactor, 0x5A7);
    assert_eq!(info.poasngle, 1);
    assert_eq!(info.pospf, 0);
    let bus = drv.release();
    expect_write(&bus.ops()[0], &[0x22], true);
}

#[test]
fn get_customer_access_is_true_only_on_one() {
    for (byte, expected) in [(1u8, true), (0u8, false), (2u8, false)] {
        let mut bus = SimBus::new();
        bus.push_read(vec![byte]);
        let mut drv = driver(bus);
        assert_eq!(drv.get_customer_access(), Ok(expected));
        let bus = drv.release();
        let ops = bus.ops();
        assert_eq!(ops.len(), 2);
        expect_write(&ops[0], &[0x30], true);
        expect_read(&ops[1], &[byte], true);
    }
}

#[test]
fn enable_and_disable_customer_access_traces() {
    let mut drv = driver(SimBus::new());
    assert!(drv.enable_customer_access().is_ok());
    assert!(drv.disable_customer_access().is_ok());
    let bus = drv.release();
    let ops = bus.ops();
    assert_eq!(ops.len(), 4);
    expect_write(&ops[0], &[0x2F], true);
    expect_write(&ops[1], &CODE, true);
    expect_write(&ops[2], &[0x2F], true);
    expect_write(&ops[3], &ZERO, true);
}

#[test]
fn reset_fault_latch_trace() {
    let mut drv = driver(SimBus::new());
    assert!(drv.reset_fault_latch().is_ok());
    let bus = drv.release();
    let ops = bus.ops();
    assert_eq!(ops.len(), 6);
    expect_write(&ops[0], &[0x2F], true);
    expect_write(&ops[1], &CODE, true);
    expect_write(&ops[2], &[0x2D], true);
    expect_write(&ops[3], &[0, 0, 0, 4], true);
    expect_write(&ops[4], &[0x2F], true);
    expect_write(&ops[5], &ZERO, true);
}

#[test]
fn reset_fault_latch_stops_at_first_failure() {
    for k in 0..6 {
        let mut bus = SimBus::new();
        bus.fail_at(k);
        let mut drv = driver(bus);
        assert_eq!(drv.reset_fault_latch(), Err(SimFault { step: k }));
        let bus = drv.release();
        assert_eq!(bus.ops().len(), k + 1);
        assert!(!op_ok(&bus.ops()[k]));
    }
}

#[test]
fn getters_propagate_transport_errors() {
    let mut bus = SimBus::new();
    bus.fail_at(0);
    let mut drv = driver(bus);
    assert_eq!(drv.get_voltage_rms(), Err(SimFault { step: 0 }));
    let bus = drv.release();
    assert_eq!(bus.ops().len(), 1);

    let mut bus = SimBus::new();
    bus.fail_at(1);
    let mut drv = driver(bus);
    assert_eq!(drv.get_status().map(|_| ()), Err(SimFault { step: 1 }));
}

#[test]
fn current_sensing_range_is_configurable() {
    let drv = driver(SimBus::new());
    assert_eq!(drv.current_sensing_range(), CurrentSensingRange::I30Amps);
    let drv = driver(SimBus::new()).with_current_sensing_range(CurrentSensingRange::I90Amps);
    assert_eq!(drv.current_sensing_range(), CurrentSensingRange::I90Amps);
}

#[test]
fn unscripted_reads_deliver_zero_payloads() {
    let mut drv = driver(SimBus::new());
    assert_eq!(drv.get_voltage_rms(), Ok(0));
    assert_eq!(drv.get_access_code(), Ok(None));
}
