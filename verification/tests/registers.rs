//! Tests of the register catalog: address table, byte/word conversions and
//! the encode/decode round trips of every layout.

use acs37800::registers::{
    Address, Reg0b, Reg0c, Reg0d, Reg0e, Reg0f, RegApparentPower, RegNumSamples, RegPower,
    RegStatus, RegVI, Registers, bytes_to_word, word_to_bytes,
};
use acs37800::swap_bytes;

#[test]
fn swap_bytes_reverses() {
    assert_eq!(swap_bytes([1, 2, 3, 4]), [4, 3, 2, 1]);
    assert_eq!(swap_bytes([0, 0, 0, 0]), [0, 0, 0, 0]);
    assert_eq!(swap_bytes(swap_bytes([0xDE, 0xAD, 0xBE, 0xEF])), [0xDE, 0xAD, 0xBE, 0xEF]);
}

#[test]
fn word_byte_conversions() {
    assert_eq!(bytes_to_word([0x6E, 0x65, 0x70, 0x4F]), 0x4F70656E);
    assert_eq!(word_to_bytes(0x4F70656E), [0x6E, 0x65, 0x70, 0x4F]);
    assert_eq!(bytes_to_word(word_to_bytes(0xDEADBEEF)), 0xDEADBEEF);
    assert_eq!(word_to_bytes(bytes_to_word([9, 8, 7, 6])), [9, 8, 7, 6]);
}

#[test]
fn register_addresses() {
    assert_eq!(Registers::EEPROM_0B.addr(), 0x0B);
    assert_eq!(Registers::EEPROM_0C.addr(), 0x0C);
    assert_eq!(Registers::EEPROM_0D.addr(), 0x0D);
    assert_eq!(Registers::EEPROM_0E.addr(), 0x0E);
    assert_eq!(Registers::EEPROM_0F.addr(), 0x0F);
    assert_eq!(Registers::SHADOW_0B.addr(), 0x1B);
    assert_eq!(Registers::SHADOW_0C.addr(), 0x1C);
    assert_eq!(Registers::SHADOW_0D.addr(), 0x1D);
    assert_eq!(Registers::SHADOW_0E.addr(), 0x1E);
    assert_eq!(Registers::SHADOW_0F.addr(), 0x1F);
    assert_eq!(Registers::ReadRMS.addr(), 0x20);
    assert_eq!(Registers::ReadPower.addr(), 0x21);
    assert_eq!(Registers::ReadApparentPower.addr(), 0x22);
    assert_eq!(Registers::ReadNumSamples.addr(), 0x25);
    assert_eq!(Registers::ReadRMS1Sec.addr(), 0x26);
    assert_eq!(Registers::ReadRMS1Min.addr(), 0x27);
    assert_eq!(Registers::ReadPower1Sec.addr(), 0x28);
    assert_eq!(Registers::ReadPower1Min.addr(), 0x29);
    assert_eq!(Registers::ReadRaw.addr(), 0x2A);
    assert_eq!(Registers::ReadPowerInstant.addr(), 0x2C);
    assert_eq!(Registers::ReadStatus.addr(), 0x2D);
    assert_eq!(Registers::AccessCode.addr(), 0x2F);
    assert_eq!(Registers::ReadCustomerAccess.addr(), 0x30);
}

#[test]
fn reg0b_decodes_known_payload() {
    let r = Reg0b::from_bytes([0x12, 0x34, 0x56, 0x78]);
    assert_eq!(r.qvo_fine, 0x12);
    assert_eq!(r.sns_fine, 0x31A);
    assert_eq!(r.crs_sns, 2);
    assert!(r.iavgselen);
    assert!(!r.pavgselen);
    assert_eq!(r.reserved, 0);
    assert_eq!(r.ecc, 0x1E);
}

#[test]
fn reg0b_field_round_trip() {
    let mut r = Reg0b::new();
    r.qvo_fine = 0x1FF;
    r.sns_fine = 0x2AB;
    r.crs_sns = 5;
    r.iavgselen = true;
    r.pavgselen = true;
    r.reserved = 3;
    r.ecc = 0x2A;
    assert_eq!(Reg0b::from_bytes(r.into_bytes()), r);
}

#[test]
fn reg0b_payload_round_trip() {
    assert_eq!(Reg0b::from_bytes([0xFF; 4]).into_bytes(), [0xFF; 4]);
    assert_eq!(Reg0b::from_bytes([0x12, 0x34, 0x56, 0x78]).into_bytes(), [0x12, 0x34, 0x56, 0x78]);
}

#[test]
fn reg0b_encode_zeroes_unset_fields() {
    let mut r = Reg0b::new();
    assert_eq!(r.into_bytes(), [0, 0, 0, 0]);
    r.iavgselen = true;
    r.pavgselen = true;
    assert_eq!(r.into_bytes(), [0x00, 0x00, 0xC0, 0x00]);
}

#[test]
fn reg0c_field_round_trip() {
    let mut r = Reg0c::new();
    r.rms_avg_1 = 126;
    r.rms_avg_2 = 1022;
    r.vchan_offset_code = 0xAB;
    r.reserved = 1;
    r.ecc = 0x15;
    assert_eq!(Reg0c::from_bytes(r.into_bytes()), r);
}

#[test]
fn reg0c_payload_round_trip() {
    assert_eq!(Reg0c::from_bytes([0xFF; 4]).into_bytes(), [0xFF; 4]);
    assert_eq!(Reg0c::from_bytes([0xA5, 0x5A, 0xC3, 0x3C]).into_bytes(), [0xA5, 0x5A, 0xC3, 0x3C]);
}

#[test]
fn reg0c_encodes_oversampling_defaults() {
    let mut r = Reg0c::new();
    r.rms_avg_1 = 126;
    assert_eq!(r.into_bytes(), [126, 0, 0, 0]);
    let mut r = Reg0c::new();
    r.rms_avg_2 = 1022;
    assert_eq!(r.into_bytes(), [0x00, 0xFF, 0x01, 0x00]);
}

#[test]
fn reg0d_field_round_trip() {
    let mut r = Reg0d::new();
    r.reserved1 = 0x55;
    r.ichan_del_en = 1;
    r.chan_del_sel = 6;
    r.reserved3 = 1;
    r.fault = 0xC7;
    r.fltdly = 5;
    r.reserved4 = 2;
    r.ecc = 0x3F;
    assert_eq!(Reg0d::from_bytes(r.into_bytes()), r);
}

#[test]
fn reg0d_payload_round_trip() {
    assert_eq!(Reg0d::from_bytes([0xFF; 4]).into_bytes(), [0xFF; 4]);
    assert_eq!(Reg0d::from_bytes([0x01, 0x23, 0x45, 0x67]).into_bytes(), [0x01, 0x23, 0x45, 0x67]);
}

#[test]
fn reg0e_field_round_trip() {
    let mut r = Reg0e::new();
    r.vevent_cycs = 0x3F;
    r.overvreg = 0x2A;
    r.undervreg = 0x15;
    r.delaycnt_sel = 1;
    r.halfcycle_en = 1;
    r.squarewave_en = 1;
    r.zerocrosschansel = 1;
    r.zerocrossedgesel = 1;
    r.reserved2 = 1;
    r.ecc = 0x0F;
    assert_eq!(Reg0e::from_bytes(r.into_bytes()), r);
}

#[test]
fn reg0e_payload_round_trip() {
    assert_eq!(Reg0e::from_bytes([0xFF; 4]).into_bytes(), [0xFF; 4]);
    assert_eq!(Reg0e::from_bytes([0x89, 0xAB, 0xCD, 0xEF]).into_bytes(), [0x89, 0xAB, 0xCD, 0xEF]);
}

#[test]
fn reg0f_field_round_trip() {
    let mut r = Reg0f::new();
    r.reserved1 = 3;
    r.i2c_slv_addr = 0x61;
    r.i2c_dis_slv_addr = 1;
    r.dio_0_sel = 2;
    r.dio_1_sel = 1;
    r.n = 0x3FF;
    r.bypass_n_en = 1;
    r.ecc = 0x20;
    assert_eq!(Reg0f::from_bytes(r.into_bytes()), r);
}

#[test]
fn reg0f_payload_round_trip() {
    assert_eq!(Reg0f::from_bytes([0xFF; 4]).into_bytes(), [0xFF; 4]);
    assert_eq!(Reg0f::from_bytes([0xFE, 0xDC, 0xBA, 0x98]).into_bytes(), [0xFE, 0xDC, 0xBA, 0x98]);
}

#[test]
fn reg_vi_decodes_known_payload() {
    let r = RegVI::from_bytes([0xE8, 0x03, 0x2C, 0x01]);
    assert_eq!(r.voltage, 1000);
    assert_eq!(r.current, 300);
}

#[test]
fn reg_vi_field_round_trip() {
    let mut r = RegVI::new();
    r.voltage = 0xFFFF;
    r.current = 0x8001;
    assert_eq!(RegVI::from_bytes(r.into_bytes()), r);
}

#[test]
fn reg_vi_payload_round_trip() {
    assert_eq!(RegVI::from_bytes([0xFF; 4]).into_bytes(), [0xFF; 4]);
    assert_eq!(RegVI::from_bytes([0x11, 0x22, 0x33, 0x44]).into_bytes(), [0x11, 0x22, 0x33, 0x44]);
}

#[test]
fn reg_power_field_round_trip() {
    let mut r = RegPower::new();
    r.power = 308;
    r.pimag = 0x7FFF;
    assert_eq!(RegPower::from_bytes(r.into_bytes()), r);
}

#[test]
fn reg_power_payload_round_trip() {
    assert_eq!(RegPower::from_bytes([0xFF; 4]).into_bytes(), [0xFF; 4]);
    assert_eq!(
        RegPower::from_bytes([0x34, 0x01, 0xFF, 0x7F]).into_bytes(),
        [0x34, 0x01, 0xFF, 0x7F]
    );
}

#[test]
fn reg_apparent_power_decodes_known_payload() {
    let r = RegApparentPower::from_bytes([0x34, 0x12, 0xA7, 0xAD]);
    assert_eq!(r.papparent, 0x1234);
    assert_eq!(r.pfactor, 0x5A7);
    assert_eq!(r.poasngle, 1);
    assert_eq!(r.pospf, 0);
    assert_eq!(r.reserved, 5);
}

#[test]
fn reg_apparent_power_field_round_trip() {
    let mut r = RegApparentPower::new();
    r.papparent = 0xBEEF;
    r.pfactor = 0x7FF;
    r.poasngle = 1;
    r.pospf = 1;
    r.reserved = 7;
    assert_eq!(RegApparentPower::from_bytes(r.into_bytes()), r);
}

#[test]
fn reg_apparent_power_payload_round_trip() {
    assert_eq!(RegApparentPower::from_bytes([0xFF; 4]).into_bytes(), [0xFF; 4]);
    assert_eq!(
        RegApparentPower::from_bytes([0x34, 0x12, 0xA7, 0xAD]).into_bytes(),
        [0x34, 0x12, 0xA7, 0xAD]
    );
}

#[test]
fn reg_num_samples_decodes_known_payload() {
    let r = RegNumSamples::from_bytes([0x09, 0x37, 0xAF, 0x0A]);
    assert_eq!(r.numptsout, 777);
    assert_eq!(r.reserved, 0x2ABCD);
}

#[test]
fn reg_num_samples_field_round_trip() {
    let mut r = RegNumSamples::new();
    r.numptsout = 1023;
    r.reserved = 0x3FFFFF;
    assert_eq!(RegNumSamples::from_bytes(r.into_bytes()), r);
}

#[test]
fn reg_num_samples_payload_round_trip() {
    assert_eq!(RegNumSamples::from_bytes([0xFF; 4]).into_bytes(), [0xFF; 4]);
    assert_eq!(
        RegNumSamples::from_bytes([0x09, 0x37, 0xAF, 0x0A]).into_bytes(),
        [0x09, 0x37, 0xAF, 0x0A]
    );
}

#[test]
fn reg_status_decodes_known_payload() {
    let r = RegStatus::from_bytes([0x75, 0x24, 0x00, 0x00]);
    assert!(r.zerocrossout);
    assert!(!r.faultout);
    assert!(r.faultlatched);
    assert!(!r.overvoltage);
    assert!(r.undervoltage);
    assert_eq!(r.reserved, 0x123);
}

#[test]
fn reg_status_field_round_trip() {
    let mut r = RegStatus::new();
    r.zerocrossout = true;
    r.faultlatched = true;
    r.undervoltage = true;
    r.reserved = 0x7FFFFFF;
    assert_eq!(RegStatus::from_bytes(r.into_bytes()), r);
}

#[test]
fn reg_status_payload_round_trip() {
    assert_eq!(RegStatus::from_bytes([0xFF; 4]).into_bytes(), [0xFF; 4]);
    assert_eq!(RegStatus::from_bytes([0x75, 0x24, 0x00, 0x00]).into_bytes(), [0x75, 0x24, 0x00, 0x00]);
}

#[test]
fn fault_latch_payload_encodes_bit_two() {
    let mut r = RegStatus::new();
    r.faultlatched = true;
    assert_eq!(swap_bytes(r.into_bytes()), [0, 0, 0, 4]);
}
