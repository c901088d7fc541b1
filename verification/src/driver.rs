//! The device controller.
//!
//! The controller owns a bus transport and a device address, sequences the
//! register-select and payload transactions of every accessor, locks writes
//! to the protected configuration area behind the customer access code, and
//! hands raw measurement fields back to the caller.  Scaling raw fields into
//! volts, amps and watts takes floating point and is the caller's part; the
//! contracts here pin the exact bus traffic of every operation and the exact
//! decoding of every payload read.

use vstd::prelude::*;
use crate::bus::{BusOpView, BusTransport, log_extends, is_read, op_data, op_ok, read_op,
    write_op};
use crate::registers::{Address, Reg0b, Reg0c, Reg0d, Reg0e, Reg0f, RegApparentPower, RegNumSamples,
    RegPower, RegStatus, RegVI, Registers, le_of_word, word_of_le};

verus! {

/// Available current sensing ranges: the full-scale current the device
/// variant is strapped for, which selects the conversion constants.
#[derive(Clone, Copy, Debug, PartialEq, Eq, Structural)]
pub enum CurrentSensingRange {
    /// 30 amps full scale.
    I30Amps,
    /// 90 amps full scale.
    I90Amps,
}

/// The little-endian bytes of the fixed customer access unlock value
/// 0x4F70656E.
pub open spec fn access_code_bytes() -> Seq<u8> {
    seq![0x6Eu8, 0x65u8, 0x70u8, 0x4Fu8]
}

/// The payload written back to register 0x0B by `init`: the payload read,
/// with the average-current-select and average-power-select flags set, the
/// other bits kept, re-encoded and byte-swapped for a configuration write.
pub open spec fn avg_enable_payload(b: Seq<u8>) -> Seq<u8> {
    le_of_word(
        (Reg0b { iavgselen: true, pavgselen: true, ..Reg0b::from_bits_spec(word_of_le(b)) }).to_bits_spec(),
    ).reverse()
}

/// The payload written back to register 0x0C by the first oversampling
/// setter: the payload read with `rms_avg_1` replaced by `v`, re-encoded and
/// byte-swapped for a configuration write.
pub open spec fn osr1_payload(b: Seq<u8>, v: u8) -> Seq<u8> {
    le_of_word(
        (Reg0c { rms_avg_1: v, ..Reg0c::from_bits_spec(word_of_le(b)) }).to_bits_spec(),
    ).reverse()
}

/// The payload written back to register 0x0C by the second oversampling
/// setter: the payload read with `rms_avg_2` replaced by `v`, re-encoded and
/// byte-swapped for a configuration write.
pub open spec fn osr2_payload(b: Seq<u8>, v: u16) -> Seq<u8> {
    le_of_word(
        (Reg0c { rms_avg_2: v, ..Reg0c::from_bits_spec(word_of_le(b)) }).to_bits_spec(),
    ).reverse()
}

/// The bus traffic of one lock-protected read-modify-write of register
/// `reg`: open the lock with `code`, read the register, write back
/// `payload` of the bytes read, close the lock — eight transactions, each
/// a register select followed by its payload transaction.  `ext` is the
/// traffic the operation added; on failure (`!success`) the last attempted
/// transaction is the one that failed and nothing follows it.
pub open spec fn locked_rmw_trace(
    dev: u8,
    code: Seq<u8>,
    reg: u8,
    payload: spec_fn(Seq<u8>) -> Seq<u8>,
    ext: Seq<BusOpView>,
    success: bool,
) -> bool {
    let n = ext.len() as int;
    &&& 1 <= n <= 8
    &&& (success ==> n == 8)
    &&& (0 < n ==> ext[0] == write_op(dev, seq![Registers::AccessCode.spec_addr()], 0 < n - 1
        || success))
    &&& (1 < n ==> ext[1] == write_op(dev, code, 1 < n - 1 || success))
    &&& (2 < n ==> ext[2] == write_op(dev, seq![reg], 2 < n - 1 || success))
    &&& (3 < n ==> is_read(ext[3], dev, 4) && (op_ok(ext[3]) <==> (3 < n - 1 || success)))
    &&& (4 < n ==> ext[4] == write_op(dev, seq![reg], 4 < n - 1 || success))
    &&& (5 < n ==> ext[5] == write_op(dev, payload(op_data(ext[3])), 5 < n - 1 || success))
    &&& (6 < n ==> ext[6] == write_op(dev, seq![Registers::AccessCode.spec_addr()], 6 < n - 1
        || success))
    &&& (7 < n ==> ext[7] == write_op(dev, seq![0u8, 0u8, 0u8, 0u8], success))
}

/// The bus traffic of a completed or failed `init`: a lock-protected read-
/// write of register 0x0B that sets the two averaging enables, then one of
/// register 0x0C setting the first oversampling parameter to its default
/// 126, then one setting the second oversampling parameter to its default
/// 1022.  A failure stops the sequence at the failing transaction.
pub open spec fn init_trace(dev: u8, code: Seq<u8>, ext: Seq<BusOpView>, success: bool) -> bool {
    if success {
        &&& ext.len() == 24
        &&& locked_rmw_trace(dev, code, Registers::EEPROM_0B.spec_addr(),
            |b: Seq<u8>| avg_enable_payload(b), ext.subrange(0, 8), true)
        &&& locked_rmw_trace(dev, code, Registers::EEPROM_0C.spec_addr(),
            |b: Seq<u8>| osr1_payload(b, 126), ext.subrange(8, 16), true)
        &&& locked_rmw_trace(dev, code, Registers::EEPROM_0C.spec_addr(),
            |b: Seq<u8>| osr2_payload(b, 1022), ext.subrange(16, 24), true)
    } else {
        ||| locked_rmw_trace(dev, code, Registers::EEPROM_0B.spec_addr(),
            |b: Seq<u8>| avg_enable_payload(b), ext, false)
        ||| (ext.len() > 8 && locked_rmw_trace(dev, code, Registers::EEPROM_0B.spec_addr(),
            |b: Seq<u8>| avg_enable_payload(b), ext.subrange(0, 8), true) && locked_rmw_trace(dev,
            code, Registers::EEPROM_0C.spec_addr(), |b: Seq<u8>| osr1_payload(b, 126), ext.skip(8),
            false))
        ||| (ext.len() > 16 && locked_rmw_trace(dev, code, Registers::EEPROM_0B.spec_addr(),
            |b: Seq<u8>| avg_enable_payload(b), ext.subrange(0, 8), true) && locked_rmw_trace(dev,
            code, Registers::EEPROM_0C.spec_addr(), |b: Seq<u8>| osr1_payload(b, 126),
            ext.subrange(8, 16), true) && locked_rmw_trace(dev, code,
            Registers::EEPROM_0C.spec_addr(), |b: Seq<u8>| osr2_payload(b, 1022), ext.skip(16),
            false))
    }
}

/// The bus traffic of one 4-byte register read: a register select then the
/// payload read.  A failed select ends the traffic with nothing read.
pub open spec fn read4_trace(dev: u8, reg: u8, ext: Seq<BusOpView>, success: bool) -> bool {
    let n = ext.len() as int;
    &&& 1 <= n <= 2
    &&& (success ==> n == 2)
    &&& (0 < n ==> ext[0] == write_op(dev, seq![reg], 0 < n - 1 || success))
    &&& (1 < n ==> is_read(ext[1], dev, 4) && (op_ok(ext[1]) <==> success))
}

/// The bus traffic of the single-byte customer-access-mode read: a register
/// select then a one-byte read, the one departure from the 4-byte payload
/// convention.
pub open spec fn read1_trace(dev: u8, reg: u8, ext: Seq<BusOpView>, success: bool) -> bool {
    let n = ext.len() as int;
    &&& 1 <= n <= 2
    &&& (success ==> n == 2)
    &&& (0 < n ==> ext[0] == write_op(dev, seq![reg], 0 < n - 1 || success))
    &&& (1 < n ==> is_read(ext[1], dev, 1) && (op_ok(ext[1]) <==> success))
}

/// The bus traffic of one lock-protected plain write of register `reg`:
/// open the lock with `code`, write `data` as the register's payload, close
/// the lock — six transactions.  On failure the last attempted transaction
/// is the one that failed and nothing follows it.
pub open spec fn locked_write_trace(
    dev: u8,
    code: Seq<u8>,
    reg: u8,
    data: Seq<u8>,
    ext: Seq<BusOpView>,
    success: bool,
) -> bool {
    let n = ext.len() as int;
    &&& 1 <= n <= 6
    &&& (success ==> n == 6)
    &&& (0 < n ==> ext[0] == write_op(dev, seq![Registers::AccessCode.spec_addr()], 0 < n - 1
        || success))
    &&& (1 < n ==> ext[1] == write_op(dev, code, 1 < n - 1 || success))
    &&& (2 < n ==> ext[2] == write_op(dev, seq![reg], 2 < n - 1 || success))
    &&& (3 < n ==> ext[3] == write_op(dev, data, 3 < n - 1 || success))
    &&& (4 < n ==> ext[4] == write_op(dev, seq![Registers::AccessCode.spec_addr()], 4 < n - 1
        || success))
    &&& (5 < n ==> ext[5] == write_op(dev, seq![0u8, 0u8, 0u8, 0u8], success))
}

/// The payload that resets the fault latch: a status field set with only
/// the fault-latched flag raised, encoded and byte-swapped for a
/// configuration write.
pub open spec fn fault_latch_payload() -> Seq<u8> {
    le_of_word(
        (RegStatus {
            zerocrossout: false,
            faultout: false,
            faultlatched: true,
            overvoltage: false,
            undervoltage: false,
            reserved: 0,
        }).to_bits_spec(),
    ).reverse()
}

/// Driver for the ACS37800 current/voltage/power sensor.
pub struct Acs37800<I2C, E> where I2C: BusTransport<E> {
    i2c: I2C,
    addr: u8,
    current_sensing_range: CurrentSensingRange,
    customer_access: [u8; 4],
    reg0b: Reg0b,
    reg0c: Reg0c,
    reg0d: Reg0d,
    reg0e: Reg0e,
    reg0f: Reg0f,
    marker: core::marker::PhantomData<E>,
}

impl<I2C, E> Acs37800<I2C, E> where I2C: BusTransport<E> {
    /// All bus transactions the owned transport attempted, oldest first.
    pub closed spec fn log(self) -> Seq<BusOpView> {
        self.i2c.log()
    }

    /// The device address every transaction goes to.
    pub closed spec fn dev_addr(self) -> u8 {
        self.addr
    }

    /// The unlock value this driver writes to open the customer access lock.
    pub closed spec fn access_code(self) -> Seq<u8> {
        self.customer_access@
    }

    /// The configured current sensing range.
    pub closed spec fn range(self) -> CurrentSensingRange {
        self.current_sensing_range
    }

    /// The configuration (device address, access code, sensing range) is the
    /// same in both states: no operation after construction changes it.
    pub open spec fn same_config(pre: Self, post: Self) -> bool {
        &&& post.dev_addr() == pre.dev_addr()
        &&& post.access_code() == pre.access_code()
        &&& post.range() == pre.range()
    }

    /// The transactions that a call starting at `pre` and ending at `post`
    /// added to the log.
    pub open spec fn ext(pre: Self, post: Self) -> Seq<BusOpView> {
        post.log().skip(pre.log().len() as int)
    }

    /// Construct a driver for the device at bus address `addr`, with the
    /// default calibration: 30 amps full scale.
    pub fn new(i2c: I2C, addr: u8) -> (r: Acs37800<I2C, E>)
        ensures
            r.log() == i2c.log(),
            r.dev_addr() == addr,
            r.access_code() == access_code_bytes(),
            r.range() == CurrentSensingRange::I30Amps,
    {
        let r = Acs37800 {
            i2c,
            addr,
            current_sensing_range: CurrentSensingRange::I30Amps,
            customer_access: [0x6E, 0x65, 0x70, 0x4F],
            reg0b: Reg0b::new(),
            reg0c: Reg0c::new(),
            reg0d: Reg0d::new(),
            reg0e: Reg0e::new(),
            reg0f: Reg0f::new(),
            marker: core::marker::PhantomData,
        };
        proof {
            assert(r.access_code() =~= access_code_bytes());
        }
        r
    }

    /// Select the current sensing range the device is strapped for.
    pub fn with_current_sensing_range(self, range: CurrentSensingRange) -> (r: Acs37800<I2C, E>)
        ensures
            r.log() == self.log(),
            r.dev_addr() == self.dev_addr(),
            r.access_code() == self.access_code(),
            r.range() == range,
    {
        Acs37800 { current_sensing_range: range, ..self }
    }

    /// The current sensing range the driver was configured with.
    pub fn current_sensing_range(&self) -> (r: CurrentSensingRange)
        ensures
            r == self.range(),
    {
        self.current_sensing_range
    }

    /// Give the bus transport back, consuming the driver.
    pub fn release(self) -> (r: I2C)
        ensures
            r.log() == self.log(),
    {
        self.i2c
    }

    /// The customer access code as a payload vector.
    fn access_vec(&self) -> (v: Vec<u8>)
        ensures
            v@ == self.access_code(),
    {
        let mut v: Vec<u8> = Vec::new();
        v.push(self.customer_access[0]);
        v.push(self.customer_access[1]);
        v.push(self.customer_access[2]);
        v.push(self.customer_access[3]);
        proof {
            assert(v@ =~= self.customer_access@);
        }
        v
    }

    /// An all-zero payload vector: the value that closes the lock.
    fn zero_vec() -> (v: Vec<u8>)
        ensures
            v@ == seq![0u8, 0u8, 0u8, 0u8],
    {
        let mut v: Vec<u8> = Vec::new();
        v.push(0);
        v.push(0);
        v.push(0);
        v.push(0);
        proof {
            assert(v@ =~= seq![0u8, 0u8, 0u8, 0u8]);
        }
        v
    }

    /// Select register `reg` and write `data` as its payload: the two-write
    /// sequence of every register write, stopping at the first failure.
    fn write_register(&mut self, reg: u8, data: &Vec<u8>) -> (r: Result<(), E>)
        ensures
            Self::same_config(*old(self), *final(self)),
            final(self).reg0b == old(self).reg0b,
            final(self).reg0c == old(self).reg0c,
            r is Ok ==> final(self).log() == old(self).log() + seq![
                write_op(old(self).dev_addr(), seq![reg], true),
                write_op(old(self).dev_addr(), data@, true),
            ],
            r is Err ==> final(self).log() == old(self).log().push(
                write_op(old(self).dev_addr(), seq![reg], false),
            ) || final(self).log() == old(self).log() + seq![
                write_op(old(self).dev_addr(), seq![reg], true),
                write_op(old(self).dev_addr(), data@, false),
            ],
    {
        let addr = self.addr;
        let mut sel: Vec<u8> = Vec::new();
        sel.push(reg);
        proof {
            assert(sel@ =~= seq![reg]);
        }
        match self.i2c.bus_write(addr, &sel) {
            Ok(()) => {},
            Err(e) => {
                return Err(e);
            },
        }
        let r = self.i2c.bus_write(addr, data);
        proof {
            assert(self.log() =~= old(self).log() + seq![
                write_op(old(self).dev_addr(), seq![reg], true),
                write_op(old(self).dev_addr(), data@, r is Ok),
            ]);
        }
        r
    }

    /// Select register `reg` and read its 4-byte payload, stopping at the
    /// first failure, with the traffic stated as a read trace.
    fn read_payload(&mut self, reg: u8) -> (r: Result<[u8; 4], E>)
        ensures
            Self::same_config(*old(self), *final(self)),
            final(self).reg0b == old(self).reg0b,
            final(self).reg0c == old(self).reg0c,
            log_extends(old(self).log(), final(self).log()),
            read4_trace(old(self).dev_addr(), reg, Self::ext(*old(self), *final(self)), r is Ok),
            r matches Ok(b) ==> Self::ext(*old(self), *final(self)).len() == 2 && op_data(
                Self::ext(*old(self), *final(self))[1],
            ) == b@,
    {
        let ghost dev = self.dev_addr();
        let ghost l0 = self.log();
        let r = self.read_reg4(reg);
        proof {
            match r {
                Ok(b) => {
                    assert(self.log().skip(l0.len() as int) =~= seq![
                        write_op(dev, seq![reg], true),
                        read_op(dev, b@, true),
                    ]);
                },
                Err(_) => {
                    if self.log() == l0.push(write_op(dev, seq![reg], false)) {
                        assert(self.log().skip(l0.len() as int) =~= seq![
                            write_op(dev, seq![reg], false),
                        ]);
                    } else {
                        assert(self.log().skip(l0.len() as int) =~= seq![
                            write_op(dev, seq![reg], true),
                            read_op(dev, Seq::empty(), false),
                        ]);
                    }
                },
            }
            assert(self.log().subrange(0, l0.len() as int) =~= l0);
        }
        r
    }

    /// Select register `reg` and read its 4-byte payload, stopping at the
    /// first failure.
    fn read_reg4(&mut self, reg: u8) -> (r: Result<[u8; 4], E>)
        ensures
            Self::same_config(*old(self), *final(self)),
            final(self).reg0b == old(self).reg0b,
            final(self).reg0c == old(self).reg0c,
            r matches Ok(b) ==> final(self).log() == old(self).log() + seq![
                write_op(old(self).dev_addr(), seq![reg], true),
                read_op(old(self).dev_addr(), b@, true),
            ],
            r is Err ==> final(self).log() == old(self).log().push(
                write_op(old(self).dev_addr(), seq![reg], false),
            ) || final(self).log() == old(self).log() + seq![
                write_op(old(self).dev_addr(), seq![reg], true),
                read_op(old(self).dev_addr(), Seq::empty(), false),
            ],
    {
        let addr = self.addr;
        let mut sel: Vec<u8> = Vec::new();
        sel.push(reg);
        proof {
            assert(sel@ =~= seq![reg]);
        }
        match self.i2c.bus_write(addr, &sel) {
            Ok(()) => {},
            Err(e) => {
                return Err(e);
            },
        }
        match self.i2c.bus_read(addr, 4) {
            Ok(d) => {
                let b = [d[0], d[1], d[2], d[3]];
                proof {
                    assert(b@ =~= d@);
                    assert(self.log() =~= old(self).log() + seq![
                        write_op(old(self).dev_addr(), seq![reg], true),
                        read_op(old(self).dev_addr(), b@, true),
                    ]);
                }
                Ok(b)
            },
            Err(e) => {
                proof {
                    assert(self.log() =~= old(self).log() + seq![
                        write_op(old(self).dev_addr(), seq![reg], true),
                        read_op(old(self).dev_addr(), Seq::empty(), false),
                    ]);
                }
                Err(e)
            },
        }
    }

    /// The bytes of a 4-byte payload as a vector.
    fn to_vec4(a: [u8; 4]) -> (v: Vec<u8>)
        ensures
            v@ == a@,
    {
        let mut v: Vec<u8> = Vec::new();
        v.push(a[0]);
        v.push(a[1]);
        v.push(a[2]);
        v.push(a[3]);
        proof {
            assert(v@ =~= a@);
        }
        v
    }

    /// The lock-protected read-modify-write of register 0x0B that sets the
    /// average-current-select and average-power-select flags, keeping every
    /// other bit as read.
    fn configure_averaging(&mut self) -> (r: Result<(), E>)
        ensures
            Self::same_config(*old(self), *final(self)),
            log_extends(old(self).log(), final(self).log()),
            locked_rmw_trace(old(self).dev_addr(), old(self).access_code(),
                Registers::EEPROM_0B.spec_addr(), |b: Seq<u8>| avg_enable_payload(b),
                Self::ext(*old(self), *final(self)), r is Ok),
    {
        let ghost dev = self.dev_addr();
        let ghost code = self.access_code();
        let ghost l0 = self.log();
        let ghost acc = Registers::AccessCode.spec_addr();
        match self.enable_customer_access() {
            Ok(()) => {},
            Err(e) => {
                proof {
                    if self.log() == l0.push(write_op(dev, seq![acc], false)) {
                        assert(self.log().skip(l0.len() as int) =~= seq![
                            write_op(dev, seq![acc], false),
                        ]);
                    } else {
                        assert(self.log().skip(l0.len() as int) =~= seq![
                            write_op(dev, seq![acc], true),
                            write_op(dev, code, false),
                        ]);
                    }
                    assert(self.log().subrange(0, l0.len() as int) =~= l0);
                }
                return Err(e);
            },
        }
        let ghost l1 = self.log();
        let reg_addr = Registers::EEPROM_0B.addr();
        let b = match self.read_reg4(reg_addr) {
            Ok(b) => b,
            Err(e) => {
                proof {
                    if self.log() == l1.push(write_op(dev, seq![reg_addr], false)) {
                        assert(self.log().skip(l0.len() as int) =~= seq![
                            write_op(dev, seq![acc], true),
                            write_op(dev, code, true),
                            write_op(dev, seq![reg_addr], false),
                        ]);
                    } else {
                        assert(self.log().skip(l0.len() as int) =~= seq![
                            write_op(dev, seq![acc], true),
                            write_op(dev, code, true),
                            write_op(dev, seq![reg_addr], true),
                            read_op(dev, Seq::empty(), false),
                        ]);
                    }
                    assert(self.log().subrange(0, l0.len() as int) =~= l0);
                }
                return Err(e);
            },
        };
        let ghost l2 = self.log();
        let mut reg = Reg0b::from_bytes(b);
        reg.iavgselen = true;
        reg.pavgselen = true;
        self.reg0b = reg;
        let payload = Self::to_vec4(crate::swap_bytes(reg.into_bytes()));
        proof {
            assert(reg == (Reg0b {
                iavgselen: true,
                pavgselen: true,
                ..Reg0b::from_bits_spec(word_of_le(b@))
            }));
            assert(payload@ == avg_enable_payload(b@));
        }
        match self.write_register(reg_addr, &payload) {
            Ok(()) => {},
            Err(e) => {
                proof {
                    if self.log() == l2.push(write_op(dev, seq![reg_addr], false)) {
                        assert(self.log().skip(l0.len() as int) =~= seq![
                            write_op(dev, seq![acc], true),
                            write_op(dev, code, true),
                            write_op(dev, seq![reg_addr], true),
                            read_op(dev, b@, true),
                            write_op(dev, seq![reg_addr], false),
                        ]);
                    } else {
                        assert(self.log().skip(l0.len() as int) =~= seq![
                            write_op(dev, seq![acc], true),
                            write_op(dev, code, true),
                            write_op(dev, seq![reg_addr], true),
                            read_op(dev, b@, true),
                            write_op(dev, seq![reg_addr], true),
                            write_op(dev, payload@, false),
                        ]);
                    }
                    assert(self.log().subrange(0, l0.len() as int) =~= l0);
                }
                return Err(e);
            },
        }
        let ghost l3 = self.log();
        let r = self.disable_customer_access();
        proof {
            if self.log() == l3.push(write_op(dev, seq![acc], false)) {
                assert(self.log().skip(l0.len() as int) =~= seq![
                    write_op(dev, seq![acc], true),
                    write_op(dev, code, true),
                    write_op(dev, seq![reg_addr], true),
                    read_op(dev, b@, true),
                    write_op(dev, seq![reg_addr], true),
                    write_op(dev, payload@, true),
                    write_op(dev, seq![acc], false),
                ]);
            } else {
                assert(self.log().skip(l0.len() as int) =~= seq![
                    write_op(dev, seq![acc], true),
                    write_op(dev, code, true),
                    write_op(dev, seq![reg_addr], true),
                    read_op(dev, b@, true),
                    write_op(dev, seq![reg_addr], true),
                    write_op(dev, payload@, true),
                    write_op(dev, seq![acc], true),
                    write_op(dev, seq![0u8, 0u8, 0u8, 0u8], r is Ok),
                ]);
            }
            assert(self.log().subrange(0, l0.len() as int) =~= l0);
        }
        r
    }

    /// The lock-protected read-modify-write of register 0x0C that sets the
    /// first (7-bit) oversampling parameter, keeping every other bit as
    /// read.
    fn set_oversampling_1(&mut self, oversampling: u8) -> (r: Result<(), E>)
        requires
            oversampling < 128,
        ensures
            Self::same_config(*old(self), *final(self)),
            log_extends(old(self).log(), final(self).log()),
            locked_rmw_trace(old(self).dev_addr(), old(self).access_code(),
                Registers::EEPROM_0C.spec_addr(), |b: Seq<u8>| osr1_payload(b, oversampling),
                Self::ext(*old(self), *final(self)), r is Ok),
    {
        let ghost dev = self.dev_addr();
        let ghost code = self.access_code();
        let ghost l0 = self.log();
        let ghost acc = Registers::AccessCode.spec_addr();
        match self.enable_customer_access() {
            Ok(()) => {},
            Err(e) => {
                proof {
                    if self.log() == l0.push(write_op(dev, seq![acc], false)) {
                        assert(self.log().skip(l0.len() as int) =~= seq![
                            write_op(dev, seq![acc], false),
                        ]);
                    } else {
                        assert(self.log().skip(l0.len() as int) =~= seq![
                            write_op(dev, seq![acc], true),
                            write_op(dev, code, false),
                        ]);
                    }
                    assert(self.log().subrange(0, l0.len() as int) =~= l0);
                }
                return Err(e);
            },
        }
        let ghost l1 = self.log();
        let reg_addr = Registers::EEPROM_0C.addr();
        let b = match self.read_reg4(reg_addr) {
            Ok(b) => b,
            Err(e) => {
                proof {
                    if self.log() == l1.push(write_op(dev, seq![reg_addr], false)) {
                        assert(self.log().skip(l0.len() as int) =~= seq![
                            write_op(dev, seq![acc], true),
                            write_op(dev, code, true),
                            write_op(dev, seq![reg_addr], false),
                        ]);
                    } else {
                        assert(self.log().skip(l0.len() as int) =~= seq![
                            write_op(dev, seq![acc], true),
                            write_op(dev, code, true),
                            write_op(dev, seq![reg_addr], true),
                            read_op(dev, Seq::empty(), false),
                        ]);
                    }
                    assert(self.log().subrange(0, l0.len() as int) =~= l0);
                }
                return Err(e);
            },
        };
        let ghost l2 = self.log();
        let mut reg = Reg0c::from_bytes(b);
        reg.rms_avg_1 = oversampling;
        self.reg0c = reg;
        let payload = Self::to_vec4(crate::swap_bytes(reg.into_bytes()));
        proof {
            assert(reg == (Reg0c {
                rms_avg_1: oversampling,
                ..Reg0c::from_bits_spec(word_of_le(b@))
            }));
            assert(payload@ == osr1_payload(b@, oversampling));
        }
        match self.write_register(reg_addr, &payload) {
            Ok(()) => {},
            Err(e) => {
                proof {
                    if self.log() == l2.push(write_op(dev, seq![reg_addr], false)) {
                        assert(self.log().skip(l0.len() as int) =~= seq![
                            write_op(dev, seq![acc], true),
                            write_op(dev, code, true),
                            write_op(dev, seq![reg_addr], true),
                            read_op(dev, b@, true),
                            write_op(dev, seq![reg_addr], false),
                        ]);
                    } else {
                        assert(self.log().skip(l0.len() as int) =~= seq![
                            write_op(dev, seq![acc], true),
                            write_op(dev, code, true),
                            write_op(dev, seq![reg_addr], true),
                            read_op(dev, b@, true),
                            write_op(dev, seq![reg_addr], true),
                            write_op(dev, payload@, false),
                        ]);
                    }
                    assert(self.log().subrange(0, l0.len() as int) =~= l0);
                }
                return Err(e);
            },
        }
        let ghost l3 = self.log();
        let r = self.disable_customer_access();
        proof {
            if self.log() == l3.push(write_op(dev, seq![acc], false)) {
                assert(self.log().skip(l0.len() as int) =~= seq![
                    write_op(dev, seq![acc], true),
                    write_op(dev, code, true),
                    write_op(dev, seq![reg_addr], true),
                    read_op(dev, b@, true),
                    write_op(dev, seq![reg_addr], true),
                    write_op(dev, payload@, true),
                    write_op(dev, seq![acc], false),
                ]);
            } else {
                assert(self.log().skip(l0.len() as int) =~= seq![
                    write_op(dev, seq![acc], true),
                    write_op(dev, code, true),
                    write_op(dev, seq![reg_addr], true),
                    read_op(dev, b@, true),
                    write_op(dev, seq![reg_addr], true),
                    write_op(dev, payload@, true),
                    write_op(dev, seq![acc], true),
                    write_op(dev, seq![0u8, 0u8, 0u8, 0u8], r is Ok),
                ]);
            }
            assert(self.log().subrange(0, l0.len() as int) =~= l0);
        }
        r
    }

    /// The lock-protected read-modify-write of register 0x0C that sets the
    /// second (10-bit) oversampling parameter, keeping every other bit as
    /// read.
    fn set_oversampling_2(&mut self, oversampling: u16) -> (r: Result<(), E>)
        requires
            oversampling < 1024,
        ensures
            Self::same_config(*old(self), *final(self)),
            log_extends(old(self).log(), final(self).log()),
            locked_rmw_trace(old(self).dev_addr(), old(self).access_code(),
                Registers::EEPROM_0C.spec_addr(), |b: Seq<u8>| osr2_payload(b, oversampling),
                Self::ext(*old(self), *final(self)), r is Ok),
    {
        let ghost dev = self.dev_addr();
        let ghost code = self.access_code();
        let ghost l0 = self.log();
        let ghost acc = Registers::AccessCode.spec_addr();
        match self.enable_customer_access() {
            Ok(()) => {},
            Err(e) => {
                proof {
                    if self.log() == l0.push(write_op(dev, seq![acc], false)) {
                        assert(self.log().skip(l0.len() as int) =~= seq![
                            write_op(dev, seq![acc], false),
                        ]);
                    } else {
                        assert(self.log().skip(l0.len() as int) =~= seq![
                            write_op(dev, seq![acc], true),
                            write_op(dev, code, false),
                        ]);
                    }
                    assert(self.log().subrange(0, l0.len() as int) =~= l0);
                }
                return Err(e);
            },
        }
        let ghost l1 = self.log();
        let reg_addr = Registers::EEPROM_0C.addr();
        let b = match self.read_reg4(reg_addr) {
            Ok(b) => b,
            Err(e) => {
                proof {
                    if self.log() == l1.push(write_op(dev, seq![reg_addr], false)) {
                        assert(self.log().skip(l0.len() as int) =~= seq![
                            write_op(dev, seq![acc], true),
                            write_op(dev, code, true),
                            write_op(dev, seq![reg_addr], false),
                        ]);
                    } else {
                        assert(self.log().skip(l0.len() as int) =~= seq![
                            write_op(dev, seq![acc], true),
                            write_op(dev, code, true),
                            write_op(dev, seq![reg_addr], true),
                            read_op(dev, Seq::empty(), false),
                        ]);
                    }
                    assert(self.log().subrange(0, l0.len() as int) =~= l0);
                }
                return Err(e);
            },
        };
        let ghost l2 = self.log();
        let mut reg = Reg0c::from_bytes(b);
        reg.rms_avg_2 = oversampling;
        self.reg0c = reg;
        let payload = Self::to_vec4(crate::swap_bytes(reg.into_bytes()));
        proof {
            assert(reg == (Reg0c {
                rms_avg_2: oversampling,
                ..Reg0c::from_bits_spec(word_of_le(b@))
            }));
            assert(payload@ == osr2_payload(b@, oversampling));
        }
        match self.write_register(reg_addr, &payload) {
            Ok(()) => {},
            Err(e) => {
                proof {
                    if self.log() == l2.push(write_op(dev, seq![reg_addr], false)) {
                        assert(self.log().skip(l0.len() as int) =~= seq![
                            write_op(dev, seq![acc], true),
                            write_op(dev, code, true),
                            write_op(dev, seq![reg_addr], true),
                            read_op(dev, b@, true),
                            write_op(dev, seq![reg_addr], false),
                        ]);
                    } else {
                        assert(self.log().skip(l0.len() as int) =~= seq![
                            write_op(dev, seq![acc], true),
                            write_op(dev, code, true),
                            write_op(dev, seq![reg_addr], true),
                            read_op(dev, b@, true),
                            write_op(dev, seq![reg_addr], true),
                            write_op(dev, payload@, false),
                        ]);
                    }
                    assert(self.log().subrange(0, l0.len() as int) =~= l0);
                }
                return Err(e);
            },
        }
        let ghost l3 = self.log();
        let r = self.disable_customer_access();
        proof {
            if self.log() == l3.push(write_op(dev, seq![acc], false)) {
                assert(self.log().skip(l0.len() as int) =~= seq![
                    write_op(dev, seq![acc], true),
                    write_op(dev, code, true),
                    write_op(dev, seq![reg_addr], true),
                    read_op(dev, b@, true),
                    write_op(dev, seq![reg_addr], true),
                    write_op(dev, payload@, true),
                    write_op(dev, seq![acc], false),
                ]);
            } else {
                assert(self.log().skip(l0.len() as int) =~= seq![
                    write_op(dev, seq![acc], true),
                    write_op(dev, code, true),
                    write_op(dev, seq![reg_addr], true),
                    read_op(dev, b@, true),
                    write_op(dev, seq![reg_addr], true),
                    write_op(dev, payload@, true),
                    write_op(dev, seq![acc], true),
                    write_op(dev, seq![0u8, 0u8, 0u8, 0u8], r is Ok),
                ]);
            }
            assert(self.log().subrange(0, l0.len() as int) =~= l0);
        }
        r
    }

    /// Initialize the device with its default configuration: enable the two
    /// averaging selects in register 0x0B, then set the two oversampling
    /// parameters of register 0x0C to their defaults 126 and 1022, each
    /// step wrapped in its own lock open and close.  The sequence stops at
    /// the first transport failure and propagates its error; a failure
    /// between a lock open and its close leaves the lock open.
    pub fn init(&mut self) -> (r: Result<(), E>)
        ensures
            Self::same_config(*old(self), *final(self)),
            log_extends(old(self).log(), final(self).log()),
            init_trace(old(self).dev_addr(), old(self).access_code(),
                Self::ext(*old(self), *final(self)), r is Ok),
    {
        let ghost l0 = self.log();
        match self.configure_averaging() {
            Ok(()) => {},
            Err(e) => {
                return Err(e);
            },
        }
        let ghost l1 = self.log();
        proof {
            assert(self.log().skip(l0.len() as int).len() == 8);
        }
        match self.set_oversampling_1(126) {
            Ok(()) => {},
            Err(e) => {
                proof {
                    let ext = self.log().skip(l0.len() as int);
                    assert(ext.subrange(0, 8) =~= l1.skip(l0.len() as int));
                    assert(ext.skip(8) =~= self.log().skip(l1.len() as int));
                    assert(self.log().subrange(0, l0.len() as int) =~= l0);
                }
                return Err(e);
            },
        }
        let ghost l2 = self.log();
        let r = self.set_oversampling_2(1022);
        proof {
            let ext = self.log().skip(l0.len() as int);
            assert(ext.subrange(0, 8) =~= l1.skip(l0.len() as int));
            assert(ext.subrange(8, 16) =~= l2.skip(l1.len() as int));
            assert(ext.skip(16) =~= self.log().skip(l2.len() as int));
            if r is Ok {
                assert(ext.subrange(16, 24) =~= self.log().skip(l2.len() as int));
            }
            assert(self.log().subrange(0, l0.len() as int) =~= l0);
        }
        r
    }

    /// The raw RMS voltage code; scaling into volts is the caller's part.
    ///
    /// Selects register `ReadRMS`, reads its 4-byte payload and decodes it.
    pub fn get_voltage_rms(&mut self) -> (r: Result<u16, E>)
        ensures
            Self::same_config(*old(self), *final(self)),
            log_extends(old(self).log(), final(self).log()),
            read4_trace(old(self).dev_addr(), Registers::ReadRMS.spec_addr(),
                Self::ext(*old(self), *final(self)), r is Ok),
            r matches Ok(v) ==> v == RegVI::from_bits_spec(word_of_le(op_data(
                Self::ext(*old(self), *final(self))[1],
            ))).voltage,
    {
        match self.read_payload(Registers::ReadRMS.addr()) {
            Ok(b) => Ok(RegVI::from_bytes(b).voltage),
            Err(e) => Err(e),
        }
    }

    /// The raw RMS current code; scaling into amps is the caller's part.
    ///
    /// Selects register `ReadRMS`, reads its 4-byte payload and decodes it.
    pub fn get_current_rms(&mut self) -> (r: Result<u16, E>)
        ensures
            Self::same_config(*old(self), *final(self)),
            log_extends(old(self).log(), final(self).log()),
            read4_trace(old(self).dev_addr(), Registers::ReadRMS.spec_addr(),
                Self::ext(*old(self), *final(self)), r is Ok),
            r matches Ok(v) ==> v == RegVI::from_bits_spec(word_of_le(op_data(
                Self::ext(*old(self), *final(self))[1],
            ))).current,
    {
        match self.read_payload(Registers::ReadRMS.addr()) {
            Ok(b) => Ok(RegVI::from_bytes(b).current),
            Err(e) => Err(e),
        }
    }

    /// The raw active power code; scaling into watts is the caller's part.
    ///
    /// Selects register `ReadPower`, reads its 4-byte payload and decodes it.
    pub fn get_power_active(&mut self) -> (r: Result<u16, E>)
        ensures
            Self::same_config(*old(self), *final(self)),
            log_extends(old(self).log(), final(self).log()),
            read4_trace(old(self).dev_addr(), Registers::ReadPower.spec_addr(),
                Self::ext(*old(self), *final(self)), r is Ok),
            r matches Ok(v) ==> v == RegPower::from_bits_spec(word_of_le(op_data(
                Self::ext(*old(self), *final(self))[1],
            ))).power,
    {
        match self.read_payload(Registers::ReadPower.addr()) {
            Ok(b) => Ok(RegPower::from_bytes(b).power),
            Err(e) => Err(e),
        }
    }

    /// The raw reactive (imaginary) power code; scaling into watts is the caller's part.
    ///
    /// Selects register `ReadPower`, reads its 4-byte payload and decodes it.
    pub fn get_power_imag(&mut self) -> (r: Result<u16, E>)
        ensures
            Self::same_config(*old(self), *final(self)),
            log_extends(old(self).log(), final(self).log()),
            read4_trace(old(self).dev_addr(), Registers::ReadPower.spec_addr(),
                Self::ext(*old(self), *final(self)), r is Ok),
            r matches Ok(v) ==> v == RegPower::from_bits_spec(word_of_le(op_data(
                Self::ext(*old(self), *final(self))[1],
            ))).pimag,
    {
        match self.read_payload(Registers::ReadPower.addr()) {
            Ok(b) => Ok(RegPower::from_bytes(b).pimag),
            Err(e) => Err(e),
        }
    }

    /// The number of samples of the averaging window.
    ///
    /// Selects register `ReadNumSamples`, reads its 4-byte payload and decodes it.
    pub fn get_sample_num(&mut self) -> (r: Result<u32, E>)
        ensures
            Self::same_config(*old(self), *final(self)),
            log_extends(old(self).log(), final(self).log()),
            read4_trace(old(self).dev_addr(), Registers::ReadNumSamples.spec_addr(),
                Self::ext(*old(self), *final(self)), r is Ok),
            r matches Ok(v) ==> v == RegNumSamples::from_bits_spec(word_of_le(op_data(
                Self::ext(*old(self), *final(self))[1],
            ))).numptsout as u32,
    {
        match self.read_payload(Registers::ReadNumSamples.addr()) {
            Ok(b) => Ok(RegNumSamples::from_bytes(b).numptsout as u32),
            Err(e) => Err(e),
        }
    }

    /// The raw voltage code averaged over one minute.
    ///
    /// Selects register `ReadRMS1Min`, reads its 4-byte payload and decodes it.
    pub fn get_voltage_avg_1_min(&mut self) -> (r: Result<u16, E>)
        ensures
            Self::same_config(*old(self), *final(self)),
            log_extends(old(self).log(), final(self).log()),
            read4_trace(old(self).dev_addr(), Registers::ReadRMS1Min.spec_addr(),
                Self::ext(*old(self), *final(self)), r is Ok),
            r matches Ok(v) ==> v == RegVI::from_bits_spec(word_of_le(op_data(
                Self::ext(*old(self), *final(self))[1],
            ))).voltage,
    {
        match self.read_payload(Registers::ReadRMS1Min.addr()) {
            Ok(b) => Ok(RegVI::from_bytes(b).voltage),
            Err(e) => Err(e),
        }
    }

    /// The raw current code averaged over one minute.
    ///
    /// Selects register `ReadRMS1Min`, reads its 4-byte payload and decodes it.
    pub fn get_current_avg_1_min(&mut self) -> (r: Result<u16, E>)
        ensures
            Self::same_config(*old(self), *final(self)),
            log_extends(old(self).log(), final(self).log()),
            read4_trace(old(self).dev_addr(), Registers::ReadRMS1Min.spec_addr(),
                Self::ext(*old(self), *final(self)), r is Ok),
            r matches Ok(v) ==> v == RegVI::from_bits_spec(word_of_le(op_data(
                Self::ext(*old(self), *final(self))[1],
            ))).current,
    {
        match self.read_payload(Registers::ReadRMS1Min.addr()) {
            Ok(b) => Ok(RegVI::from_bytes(b).current),
            Err(e) => Err(e),
        }
    }

    /// The raw power code averaged over one minute.
    ///
    /// Selects register `ReadPower1Min`, reads its 4-byte payload and decodes it.
    pub fn get_power_avg_1_min(&mut self) -> (r: Result<u16, E>)
        ensures
            Self::same_config(*old(self), *final(self)),
            log_extends(old(self).log(), final(self).log()),
            read4_trace(old(self).dev_addr(), Registers::ReadPower1Min.spec_addr(),
                Self::ext(*old(self), *final(self)), r is Ok),
            r matches Ok(v) ==> v == RegPower::from_bits_spec(word_of_le(op_data(
                Self::ext(*old(self), *final(self))[1],
            ))).power,
    {
        match self.read_payload(Registers::ReadPower1Min.addr()) {
            Ok(b) => Ok(RegPower::from_bytes(b).power),
            Err(e) => Err(e),
        }
    }

    /// The raw voltage code averaged over one second.
    ///
    /// Selects register `ReadRMS1Sec`, reads its 4-byte payload and decodes it.
    pub fn get_voltage_avg_1_sec(&mut self) -> (r: Result<u16, E>)
        ensures
            Self::same_config(*old(self), *final(self)),
            log_extends(old(self).log(), final(self).log()),
            read4_trace(old(self).dev_addr(), Registers::ReadRMS1Sec.spec_addr(),
                Self::ext(*old(self), *final(self)), r is Ok),
            r matches Ok(v) ==> v == RegVI::from_bits_spec(word_of_le(op_data(
                Self::ext(*old(self), *final(self))[1],
            ))).voltage,
    {
        match self.read_payload(Registers::ReadRMS1Sec.addr()) {
            Ok(b) => Ok(RegVI::from_bytes(b).voltage),
            Err(e) => Err(e),
        }
    }

    /// The raw current code averaged over one second.
    ///
    /// Selects register `ReadRMS1Sec`, reads its 4-byte payload and decodes it.
    pub fn get_current_avg_1_sec(&mut self) -> (r: Result<u16, E>)
        ensures
            Self::same_config(*old(self), *final(self)),
            log_extends(old(self).log(), final(self).log()),
            read4_trace(old(self).dev_addr(), Registers::ReadRMS1Sec.spec_addr(),
                Self::ext(*old(self), *final(self)), r is Ok),
            r matches Ok(v) ==> v == RegVI::from_bits_spec(word_of_le(op_data(
                Self::ext(*old(self), *final(self))[1],
            ))).current,
    {
        match self.read_payload(Registers::ReadRMS1Sec.addr()) {
            Ok(b) => Ok(RegVI::from_bytes(b).current),
            Err(e) => Err(e),
        }
    }

    /// The raw power code averaged over one second.
    ///
    /// Selects register `ReadPower1Sec`, reads its 4-byte payload and decodes it.
    pub fn get_power_avg_1_sec(&mut self) -> (r: Result<u16, E>)
        ensures
            Self::same_config(*old(self), *final(self)),
            log_extends(old(self).log(), final(self).log()),
            read4_trace(old(self).dev_addr(), Registers::ReadPower1Sec.spec_addr(),
                Self::ext(*old(self), *final(self)), r is Ok),
            r matches Ok(v) ==> v == RegPower::from_bits_spec(word_of_le(op_data(
                Self::ext(*old(self), *final(self))[1],
            ))).power,
    {
        match self.read_payload(Registers::ReadPower1Sec.addr()) {
            Ok(b) => Ok(RegPower::from_bytes(b).power),
            Err(e) => Err(e),
        }
    }

    /// The raw instantaneous voltage code.
    ///
    /// Selects register `ReadRaw`, reads its 4-byte payload and decodes it.
    pub fn get_instant_voltage(&mut self) -> (r: Result<u16, E>)
        ensures
            Self::same_config(*old(self), *final(self)),
            log_extends(old(self).log(), final(self).log()),
            read4_trace(old(self).dev_addr(), Registers::ReadRaw.spec_addr(),
                Self::ext(*old(self), *final(self)), r is Ok),
            r matches Ok(v) ==> v == RegVI::from_bits_spec(word_of_le(op_data(
                Self::ext(*old(self), *final(self))[1],
            ))).voltage,
    {
        match self.read_payload(Registers::ReadRaw.addr()) {
            Ok(b) => Ok(RegVI::from_bytes(b).voltage),
            Err(e) => Err(e),
        }
    }

    /// The raw instantaneous current code.
    ///
    /// Selects register `ReadRaw`, reads its 4-byte payload and decodes it.
    pub fn get_instant_current(&mut self) -> (r: Result<u16, E>)
        ensures
            Self::same_config(*old(self), *final(self)),
            log_extends(old(self).log(), final(self).log()),
            read4_trace(old(self).dev_addr(), Registers::ReadRaw.spec_addr(),
                Self::ext(*old(self), *final(self)), r is Ok),
            r matches Ok(v) ==> v == RegVI::from_bits_spec(word_of_le(op_data(
                Self::ext(*old(self), *final(self))[1],
            ))).current,
    {
        match self.read_payload(Registers::ReadRaw.addr()) {
            Ok(b) => Ok(RegVI::from_bytes(b).current),
            Err(e) => Err(e),
        }
    }

    /// The raw instantaneous power code.
    ///
    /// Selects register `ReadPowerInstant`, reads its 4-byte payload and decodes it.
    pub fn get_instant_power(&mut self) -> (r: Result<u16, E>)
        ensures
            Self::same_config(*old(self), *final(self)),
            log_extends(old(self).log(), final(self).log()),
            read4_trace(old(self).dev_addr(), Registers::ReadPowerInstant.spec_addr(),
                Self::ext(*old(self), *final(self)), r is Ok),
            r matches Ok(v) ==> v == RegPower::from_bits_spec(word_of_le(op_data(
                Self::ext(*old(self), *final(self))[1],
            ))).power,
    {
        match self.read_payload(Registers::ReadPowerInstant.addr()) {
            Ok(b) => Ok(RegPower::from_bytes(b).power),
            Err(e) => Err(e),
        }
    }

    /// The apparent power register: apparent power, power factor and sign flags.
    ///
    /// Selects register `ReadApparentPower`, reads its 4-byte payload and decodes it.
    pub fn get_power_info(&mut self) -> (r: Result<RegApparentPower, E>)
        ensures
            Self::same_config(*old(self), *final(self)),
            log_extends(old(self).log(), final(self).log()),
            read4_trace(old(self).dev_addr(), Registers::ReadApparentPower.spec_addr(),
                Self::ext(*old(self), *final(self)), r is Ok),
            r matches Ok(v) ==> v == RegApparentPower::from_bits_spec(word_of_le(op_data(
                Self::ext(*old(self), *final(self))[1],
            ))) && v.wf(),
    {
        match self.read_payload(Registers::ReadApparentPower.addr()) {
            Ok(b) => Ok(RegApparentPower::from_bytes(b)),
            Err(e) => Err(e),
        }
    }

    /// The status register: zero-cross, fault and voltage-range flags.
    ///
    /// Selects register `ReadStatus`, reads its 4-byte payload and decodes it.
    pub fn get_status(&mut self) -> (r: Result<RegStatus, E>)
        ensures
            Self::same_config(*old(self), *final(self)),
            log_extends(old(self).log(), final(self).log()),
            read4_trace(old(self).dev_addr(), Registers::ReadStatus.spec_addr(),
                Self::ext(*old(self), *final(self)), r is Ok),
            r matches Ok(v) ==> v == RegStatus::from_bits_spec(word_of_le(op_data(
                Self::ext(*old(self), *final(self))[1],
            ))) && v.wf(),
    {
        match self.read_payload(Registers::ReadStatus.addr()) {
            Ok(b) => Ok(RegStatus::from_bytes(b)),
            Err(e) => Err(e),
        }
    }
    /// Read back the access code register and reassemble its 4 bytes into a
    /// 32-bit value, byte 0 least significant.
    ///
    /// `Ok(None)` means the register was observed all zero (the lock is
    /// closed); `Ok(Some(_))` carries the nonzero value read; a transport
    /// failure is returned as the transport's own error, so an absent value
    /// always means an observed all-zero register.
    pub fn get_access_code(&mut self) -> (r: Result<Option<u32>, E>)
        ensures
            Self::same_config(*old(self), *final(self)),
            log_extends(old(self).log(), final(self).log()),
            read4_trace(old(self).dev_addr(), Registers::AccessCode.spec_addr(),
                Self::ext(*old(self), *final(self)), r is Ok),
            r matches Ok(v) ==> v == (if word_of_le(op_data(Self::ext(*old(self), *final(self))[1]))
                == 0 {
                Option::<u32>::None
            } else {
                Option::Some(word_of_le(op_data(Self::ext(*old(self), *final(self))[1])))
            }),
    {
        match self.read_payload(Registers::AccessCode.addr()) {
            Ok(b) => {
                let mut access_code = b[0] as u32;
                access_code |= (b[1] as u32) << 8;
                access_code |= (b[2] as u32) << 16;
                access_code |= (b[3] as u32) << 24;
                if access_code != 0 {
                    Ok(Some(access_code))
                } else {
                    Ok(None)
                }
            },
            Err(e) => Err(e),
        }
    }

    /// Query the customer access mode with the dedicated single-byte read:
    /// true exactly when the byte read equals 1.
    pub fn get_customer_access(&mut self) -> (r: Result<bool, E>)
        ensures
            Self::same_config(*old(self), *final(self)),
            log_extends(old(self).log(), final(self).log()),
            read1_trace(old(self).dev_addr(), Registers::ReadCustomerAccess.spec_addr(),
                Self::ext(*old(self), *final(self)), r is Ok),
            r matches Ok(v) ==> v == (op_data(Self::ext(*old(self), *final(self))[1]) == seq![
                1u8,
            ]),
    {
        let ghost dev = self.dev_addr();
        let ghost l0 = self.log();
        let addr = self.addr;
        let reg = Registers::ReadCustomerAccess.addr();
        let mut sel: Vec<u8> = Vec::new();
        sel.push(reg);
        proof {
            assert(sel@ =~= seq![reg]);
        }
        match self.i2c.bus_write(addr, &sel) {
            Ok(()) => {},
            Err(e) => {
                proof {
                    assert(self.log().skip(l0.len() as int) =~= seq![
                        write_op(dev, seq![reg], false),
                    ]);
                    assert(self.log().subrange(0, l0.len() as int) =~= l0);
                }
                return Err(e);
            },
        }
        match self.i2c.bus_read(addr, 1) {
            Ok(d) => {
                let v = d[0] == 1;
                proof {
                    assert(self.log().skip(l0.len() as int) =~= seq![
                        write_op(dev, seq![reg], true),
                        read_op(dev, d@, true),
                    ]);
                    assert(self.log().subrange(0, l0.len() as int) =~= l0);
                    if v {
                        assert(d@ =~= seq![1u8]);
                    } else {
                        assert(d@ != seq![1u8]) by {
                            assert(d@[0] != seq![1u8][0]);
                        }
                    }
                }
                Ok(v)
            },
            Err(e) => {
                proof {
                    assert(self.log().skip(l0.len() as int) =~= seq![
                        write_op(dev, seq![reg], true),
                        read_op(dev, Seq::empty(), false),
                    ]);
                    assert(self.log().subrange(0, l0.len() as int) =~= l0);
                }
                Err(e)
            },
        }
    }

    /// Reset the sticky fault latch: open the lock, write a status payload
    /// with only the fault-latched flag set to the status register, close
    /// the lock.  The sequence stops at the first transport failure; a
    /// failure after the lock opened leaves the lock open.
    pub fn reset_fault_latch(&mut self) -> (r: Result<(), E>)
        ensures
            Self::same_config(*old(self), *final(self)),
            log_extends(old(self).log(), final(self).log()),
            locked_write_trace(old(self).dev_addr(), old(self).access_code(),
                Registers::ReadStatus.spec_addr(), fault_latch_payload(),
                Self::ext(*old(self), *final(self)), r is Ok),
    {
        let ghost dev = self.dev_addr();
        let ghost code = self.access_code();
        let ghost l0 = self.log();
        let ghost acc = Registers::AccessCode.spec_addr();
        match self.enable_customer_access() {
            Ok(()) => {},
            Err(e) => {
                proof {
                    if self.log() == l0.push(write_op(dev, seq![acc], false)) {
                        assert(self.log().skip(l0.len() as int) =~= seq![
                            write_op(dev, seq![acc], false),
                        ]);
                    } else {
                        assert(self.log().skip(l0.len() as int) =~= seq![
                            write_op(dev, seq![acc], true),
                            write_op(dev, code, false),
                        ]);
                    }
                    assert(self.log().subrange(0, l0.len() as int) =~= l0);
                }
                return Err(e);
            },
        }
        let ghost l1 = self.log();
        let mut temp = RegStatus::new();
        temp.faultlatched = true;
        let payload = Self::to_vec4(crate::swap_bytes(temp.into_bytes()));
        let reg_addr = Registers::ReadStatus.addr();
        proof {
            assert(temp == (RegStatus {
                zerocrossout: false,
                faultout: false,
                faultlatched: true,
                overvoltage: false,
                undervoltage: false,
                reserved: 0,
            }));
            assert(payload@ == fault_latch_payload());
        }
        match self.write_register(reg_addr, &payload) {
            Ok(()) => {},
            Err(e) => {
                proof {
                    if self.log() == l1.push(write_op(dev, seq![reg_addr], false)) {
                        assert(self.log().skip(l0.len() as int) =~= seq![
                            write_op(dev, seq![acc], true),
                            write_op(dev, code, true),
                            write_op(dev, seq![reg_addr], false),
                        ]);
                    } else {
                        assert(self.log().skip(l0.len() as int) =~= seq![
                            write_op(dev, seq![acc], true),
                            write_op(dev, code, true),
                            write_op(dev, seq![reg_addr], true),
                            write_op(dev, payload@, false),
                        ]);
                    }
                    assert(self.log().subrange(0, l0.len() as int) =~= l0);
                }
                return Err(e);
            },
        }
        let ghost l2 = self.log();
        let r = self.disable_customer_access();
        proof {
            if self.log() == l2.push(write_op(dev, seq![acc], false)) {
                assert(self.log().skip(l0.len() as int) =~= seq![
                    write_op(dev, seq![acc], true),
                    write_op(dev, code, true),
                    write_op(dev, seq![reg_addr], true),
                    write_op(dev, payload@, true),
                    write_op(dev, seq![acc], false),
                ]);
            } else {
                assert(self.log().skip(l0.len() as int) =~= seq![
                    write_op(dev, seq![acc], true),
                    write_op(dev, code, true),
                    write_op(dev, seq![reg_addr], true),
                    write_op(dev, payload@, true),
                    write_op(dev, seq![acc], true),
                    write_op(dev, seq![0u8, 0u8, 0u8, 0u8], r is Ok),
                ]);
            }
            assert(self.log().subrange(0, l0.len() as int) =~= l0);
        }
        r
    }

    /// Open the customer access lock: write the unlock code to the access
    /// code register.
    pub fn enable_customer_access(&mut self) -> (r: Result<(), E>)
        ensures
            Self::same_config(*old(self), *final(self)),
            r is Ok ==> final(self).log() == old(self).log() + seq![
                write_op(old(self).dev_addr(), seq![Registers::AccessCode.spec_addr()], true),
                write_op(old(self).dev_addr(), old(self).access_code(), true),
            ],
            r is Err ==> final(self).log() == old(self).log().push(
                write_op(old(self).dev_addr(), seq![Registers::AccessCode.spec_addr()], false),
            ) || final(self).log() == old(self).log() + seq![
                write_op(old(self).dev_addr(), seq![Registers::AccessCode.spec_addr()], true),
                write_op(old(self).dev_addr(), old(self).access_code(), false),
            ],
    {
        let code = self.access_vec();
        self.write_register(Registers::AccessCode.addr(), &code)
    }

    /// Close the customer access lock: write all-zero bytes to the access
    /// code register.
    pub fn disable_customer_access(&mut self) -> (r: Result<(), E>)
        ensures
            Self::same_config(*old(self), *final(self)),
            r is Ok ==> final(self).log() == old(self).log() + seq![
                write_op(old(self).dev_addr(), seq![Registers::AccessCode.spec_addr()], true),
                write_op(old(self).dev_addr(), seq![0u8, 0u8, 0u8, 0u8], true),
            ],
            r is Err ==> final(self).log() == old(self).log().push(
                write_op(old(self).dev_addr(), seq![Registers::AccessCode.spec_addr()], false),
            ) || final(self).log() == old(self).log() + seq![
                write_op(old(self).dev_addr(), seq![Registers::AccessCode.spec_addr()], true),
                write_op(old(self).dev_addr(), seq![0u8, 0u8, 0u8, 0u8], false),
            ],
    {
        let zeros = Self::zero_vec();
        self.write_register(Registers::AccessCode.addr(), &zeros)
    }
}

} // verus!
