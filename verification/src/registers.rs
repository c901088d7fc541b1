//! Register catalog of the ACS37800.
//!
//! Every register transaction moves a 4-byte payload.  The payload is read as
//! a 32-bit word in little-endian wire order (byte 0 is least significant),
//! and each multi-field register splits that word into named bit-fields,
//! first declared field in the least-significant bits.  Each layout struct
//! carries a pair of pure conversions, `from_bits` and `to_bits`, together
//! with byte-level wrappers `from_bytes` and `into_bytes`, and the round-trip
//! laws that hold of them: decoding an encoded field set returns the field
//! set, and encoding a decoded payload reproduces every bit of the payload,
//! reserved ranges included.

use vstd::prelude::*;

verus! {

/// The 32-bit word carried by four payload bytes in little-endian order.
pub open spec fn word_of_le(b: Seq<u8>) -> u32
    recommends
        b.len() == 4,
{
    (b[0] as u32) | ((b[1] as u32) << 8) | ((b[2] as u32) << 16) | ((b[3] as u32) << 24)
}

/// The four little-endian payload bytes of a 32-bit word.
pub open spec fn le_of_word(x: u32) -> Seq<u8> {
    seq![
        (x & 0xff) as u8,
        ((x >> 8) & 0xff) as u8,
        ((x >> 16) & 0xff) as u8,
        ((x >> 24) & 0xff) as u8,
    ]
}

/// A mask keeps a word at or below the mask itself.
pub proof fn lemma_mask_bound(x: u32, m: u32)
    ensures
        x & m <= m,
{
    assert(x & m <= m) by (bit_vector);
}

/// Reassembling the word of a 4-byte payload yields the payload again.
pub proof fn lemma_le_of_word_of_le(b: Seq<u8>)
    requires
        b.len() == 4,
    ensures
        le_of_word(word_of_le(b)) == b,
{
    let b0 = b[0] as u32;
    let b1 = b[1] as u32;
    let b2 = b[2] as u32;
    let b3 = b[3] as u32;
    let w = word_of_le(b);
    assert((w & 0xff) == b0 && ((w >> 8) & 0xff) == b1 && ((w >> 16) & 0xff) == b2 && ((w >> 24)
        & 0xff) == b3) by (bit_vector)
        requires
            b0 < 0x100,
            b1 < 0x100,
            b2 < 0x100,
            b3 < 0x100,
            w == b0 | (b1 << 8) | (b2 << 16) | (b3 << 24),
    ;
    assert(le_of_word(w) =~= b);
}

/// Reading back the bytes of a word yields the word again.
pub proof fn lemma_word_of_le_of_word(x: u32)
    ensures
        word_of_le(le_of_word(x)) == x,
{
    let b = le_of_word(x);
    lemma_mask_bound(x, 0xff);
    lemma_mask_bound(x >> 8, 0xff);
    lemma_mask_bound(x >> 16, 0xff);
    lemma_mask_bound(x >> 24, 0xff);
    assert(b[0] as u32 == (x & 0xff) && b[1] as u32 == ((x >> 8) & 0xff) && b[2] as u32 == ((x
        >> 16) & 0xff) && b[3] as u32 == ((x >> 24) & 0xff));
    assert((x & 0xff) | (((x >> 8) & 0xff) << 8) | (((x >> 16) & 0xff) << 16) | (((x >> 24) & 0xff)
        << 24) == x) by (bit_vector);
}

/// Assemble the 32-bit word of a 4-byte payload, least-significant byte first.
pub fn bytes_to_word(b: [u8; 4]) -> (x: u32)
    ensures
        x == word_of_le(b@),
{
    (b[0] as u32) | ((b[1] as u32) << 8) | ((b[2] as u32) << 16) | ((b[3] as u32) << 24)
}

/// Split a 32-bit word into its 4-byte payload, least-significant byte first.
pub fn word_to_bytes(x: u32) -> (b: [u8; 4])
    ensures
        b@ == le_of_word(x),
{
    let b = [(x & 0xff) as u8, ((x >> 8) & 0xff) as u8, ((x >> 16) & 0xff) as u8, ((x >> 24)
        & 0xff) as u8];
    proof {
        assert(b@ =~= le_of_word(x));
    }
    b
}

/// Conversion from a register name to its one-byte bus address.
pub trait Address: Sized {
    /// The one-byte address of the register.
    spec fn spec_addr(self) -> u8;

    /// Return the one-byte address of the register.
    fn addr(self) -> (a: u8)
        ensures
            a == self.spec_addr(),
    ;
}

/// Register addresses of the ACS37800.
#[allow(non_camel_case_types)]
#[derive(Clone, Copy, Debug, PartialEq, Eq, Structural)]
pub enum Registers {
    /// Non-volatile configuration register 0x0B.
    EEPROM_0B,
    /// Non-volatile configuration register 0x0C.
    EEPROM_0C,
    /// Non-volatile configuration register 0x0D.
    EEPROM_0D,
    /// Non-volatile configuration register 0x0E.
    EEPROM_0E,
    /// Non-volatile configuration register 0x0F.
    EEPROM_0F,
    /// Volatile shadow of register 0x0B.
    SHADOW_0B,
    /// Volatile shadow of register 0x0C.
    SHADOW_0C,
    /// Volatile shadow of register 0x0D.
    SHADOW_0D,
    /// Volatile shadow of register 0x0E.
    SHADOW_0E,
    /// Volatile shadow of register 0x0F.
    SHADOW_0F,
    /// RMS voltage and current.
    ReadRMS,
    /// Active and reactive power.
    ReadPower,
    /// Apparent power and power factor.
    ReadApparentPower,
    /// Number of samples of the averaging window.
    ReadNumSamples,
    /// RMS voltage and current averaged over one second.
    ReadRMS1Sec,
    /// RMS voltage and current averaged over one minute.
    ReadRMS1Min,
    /// Power averaged over one second.
    ReadPower1Sec,
    /// Power averaged over one minute.
    ReadPower1Min,
    /// Instantaneous voltage and current.
    ReadRaw,
    /// Instantaneous power.
    ReadPowerInstant,
    /// Status flags.
    ReadStatus,
    /// Customer access code lock.
    AccessCode,
    /// Customer access mode (single-byte read).
    ReadCustomerAccess,
}

impl Address for Registers {
    open spec fn spec_addr(self) -> u8 {
        match self {
            Registers::EEPROM_0B => 0x0B,
            Registers::EEPROM_0C => 0x0C,
            Registers::EEPROM_0D => 0x0D,
            Registers::EEPROM_0E => 0x0E,
            Registers::EEPROM_0F => 0x0F,
            Registers::SHADOW_0B => 0x1B,
            Registers::SHADOW_0C => 0x1C,
            Registers::SHADOW_0D => 0x1D,
            Registers::SHADOW_0E => 0x1E,
            Registers::SHADOW_0F => 0x1F,
            Registers::ReadRMS => 0x20,
            Registers::ReadPower => 0x21,
            Registers::ReadApparentPower => 0x22,
            Registers::ReadNumSamples => 0x25,
            Registers::ReadRMS1Sec => 0x26,
            Registers::ReadRMS1Min => 0x27,
            Registers::ReadPower1Sec => 0x28,
            Registers::ReadPower1Min => 0x29,
            Registers::ReadRaw => 0x2A,
            Registers::ReadPowerInstant => 0x2C,
            Registers::ReadStatus => 0x2D,
            Registers::AccessCode => 0x2F,
            Registers::ReadCustomerAccess => 0x30,
        }
    }

    fn addr(self) -> (a: u8) {
        match self {
            Registers::EEPROM_0B => 0x0B,
            Registers::EEPROM_0C => 0x0C,
            Registers::EEPROM_0D => 0x0D,
            Registers::EEPROM_0E => 0x0E,
            Registers::EEPROM_0F => 0x0F,
            Registers::SHADOW_0B => 0x1B,
            Registers::SHADOW_0C => 0x1C,
            Registers::SHADOW_0D => 0x1D,
            Registers::SHADOW_0E => 0x1E,
            Registers::SHADOW_0F => 0x1F,
            Registers::ReadRMS => 0x20,
            Registers::ReadPower => 0x21,
            Registers::ReadApparentPower => 0x22,
            Registers::ReadNumSamples => 0x25,
            Registers::ReadRMS1Sec => 0x26,
            Registers::ReadRMS1Min => 0x27,
            Registers::ReadPower1Sec => 0x28,
            Registers::ReadPower1Min => 0x29,
            Registers::ReadRaw => 0x2A,
            Registers::ReadPowerInstant => 0x2C,
            Registers::ReadStatus => 0x2D,
            Registers::AccessCode => 0x2F,
            Registers::ReadCustomerAccess => 0x30,
        }
    }
}

/// Configuration register 0x0B: trim and averaging enables.
#[derive(Clone, Copy, Debug, PartialEq, Eq, Structural)]
pub struct Reg0b {
    /// Bit 0..8: 9-bit field `qvo_fine`.
    pub qvo_fine: u16,
    /// Bit 9..18: 10-bit field `sns_fine`.
    pub sns_fine: u16,
    /// Bit 19..21: 3-bit field `crs_sns`.
    pub crs_sns: u8,
    /// Bit 22: flag `iavgselen`.
    pub iavgselen: bool,
    /// Bit 23: flag `pavgselen`.
    pub pavgselen: bool,
    /// Bit 24..25: 2-bit field `reserved`.
    pub reserved: u8,
    /// Bit 26..31: 6-bit field `ecc`.
    pub ecc: u8,
}

impl Reg0b {
    /// Every field fits its declared bit width.
    pub open spec fn wf(self) -> bool {
        self.qvo_fine < 0x200 && self.sns_fine < 0x400 && self.crs_sns < 0x8 && self.reserved < 0x4 && self.ecc < 0x40
    }

    /// Pack the fields into the 32-bit register word.
    pub open spec fn to_bits_spec(self) -> u32 {
        (self.qvo_fine as u32) | ((self.sns_fine as u32) << 9) | ((self.crs_sns as u32) << 19) | ((if self.iavgselen { 1u32 } else { 0u32 }) << 22) | ((if self.pavgselen { 1u32 } else { 0u32 }) << 23) | ((self.reserved as u32) << 24) | ((self.ecc as u32) << 26)
    }

    /// Unpack a 32-bit register word into its fields.
    pub open spec fn from_bits_spec(x: u32) -> Reg0b {
        Reg0b {
            qvo_fine: (x & 0x1ff) as u16,
            sns_fine: ((x >> 9) & 0x3ff) as u16,
            crs_sns: ((x >> 19) & 0x7) as u8,
            iavgselen: (x >> 22) & 1 == 1,
            pavgselen: (x >> 23) & 1 == 1,
            reserved: ((x >> 24) & 0x3) as u8,
            ecc: ((x >> 26) & 0x3f) as u8,
        }
    }

    /// An all-zero field set: the starting point of an encode.
    pub fn new() -> (r: Reg0b)
        ensures
            r.qvo_fine == 0,
            r.sns_fine == 0,
            r.crs_sns == 0,
            r.iavgselen == false,
            r.pavgselen == false,
            r.reserved == 0,
            r.ecc == 0,
            r.wf(),
    {
        Reg0b {
            qvo_fine: 0,
            sns_fine: 0,
            crs_sns: 0,
            iavgselen: false,
            pavgselen: false,
            reserved: 0,
            ecc: 0,
        }
    }

    /// Unpack a 32-bit register word into its fields.
    pub fn from_bits(x: u32) -> (r: Reg0b)
        ensures
            r == Reg0b::from_bits_spec(x),
            r.wf(),
    {
        proof {
            lemma_mask_bound(x, 0x1ff);
            lemma_mask_bound(x >> 9, 0x3ff);
            lemma_mask_bound(x >> 19, 0x7);
            lemma_mask_bound(x >> 24, 0x3);
            lemma_mask_bound(x >> 26, 0x3f);
        }
        Reg0b {
            qvo_fine: (x & 0x1ff) as u16,
            sns_fine: ((x >> 9) & 0x3ff) as u16,
            crs_sns: ((x >> 19) & 0x7) as u8,
            iavgselen: (x >> 22) & 1 == 1,
            pavgselen: (x >> 23) & 1 == 1,
            reserved: ((x >> 24) & 0x3) as u8,
            ecc: ((x >> 26) & 0x3f) as u8,
        }
    }

    /// Pack the fields into the 32-bit register word.
    pub fn to_bits(self) -> (x: u32)
        requires
            self.wf(),
        ensures
            x == self.to_bits_spec(),
    {
        (self.qvo_fine as u32) | ((self.sns_fine as u32) << 9) | ((self.crs_sns as u32) << 19) | ((if self.iavgselen { 1u32 } else { 0u32 }) << 22) | ((if self.pavgselen { 1u32 } else { 0u32 }) << 23) | ((self.reserved as u32) << 24) | ((self.ecc as u32) << 26)
    }

    /// Decode a 4-byte payload in little-endian wire order.
    pub fn from_bytes(bytes: [u8; 4]) -> (r: Reg0b)
        ensures
            r == Reg0b::from_bits_spec(word_of_le(bytes@)),
            r.wf(),
    {
        Reg0b::from_bits(bytes_to_word(bytes))
    }

    /// Encode the fields into a 4-byte payload in little-endian wire order.
    pub fn into_bytes(self) -> (bytes: [u8; 4])
        requires
            self.wf(),
        ensures
            bytes@ == le_of_word(self.to_bits_spec()),
    {
        word_to_bytes(self.to_bits())
    }
}

/// Decoding an encoded `Reg0b` field set returns the field set unchanged.
pub proof fn lemma_reg0b_decode_encode(r: Reg0b)
    requires
        r.wf(),
    ensures
        Reg0b::from_bits_spec(r.to_bits_spec()) == r,
{
    let v_qvo_fine: u32 = r.qvo_fine as u32;
    let v_sns_fine: u32 = r.sns_fine as u32;
    let v_crs_sns: u32 = r.crs_sns as u32;
    let v_iavgselen: u32 = if r.iavgselen { 1u32 } else { 0u32 };
    let v_pavgselen: u32 = if r.pavgselen { 1u32 } else { 0u32 };
    let v_reserved: u32 = r.reserved as u32;
    let v_ecc: u32 = r.ecc as u32;
    let w: u32 = r.to_bits_spec();
    assert((w & 0x1ff) == v_qvo_fine && ((w >> 9) & 0x3ff) == v_sns_fine && ((w >> 19) & 0x7) == v_crs_sns && ((w >> 22) & 0x1) == v_iavgselen && ((w >> 23) & 0x1) == v_pavgselen && ((w >> 24) & 0x3) == v_reserved && ((w >> 26) & 0x3f) == v_ecc) by (bit_vector)
        requires
            v_qvo_fine < 0x200,
            v_sns_fine < 0x400,
            v_crs_sns < 0x8,
            v_iavgselen < 2,
            v_pavgselen < 2,
            v_reserved < 0x4,
            v_ecc < 0x40,
            w == v_qvo_fine | (v_sns_fine << 9) | (v_crs_sns << 19) | (v_iavgselen << 22) | (v_pavgselen << 23) | (v_reserved << 24) | (v_ecc << 26),
    ;
    assert(((w >> 22) & 1 == 1) == r.iavgselen);
    assert(((w >> 23) & 1 == 1) == r.pavgselen);
    assert(Reg0b::from_bits_spec(w) == r);
}

/// Encoding a decoded `Reg0b` payload word reproduces it bit for bit,
/// reserved ranges included.
pub proof fn lemma_reg0b_encode_decode(x: u32)
    ensures
        Reg0b::from_bits_spec(x).to_bits_spec() == x,
{
    let r = Reg0b::from_bits_spec(x);
    let v_qvo_fine: u32 = x & 0x1ff;
    let v_sns_fine: u32 = (x >> 9) & 0x3ff;
    let v_crs_sns: u32 = (x >> 19) & 0x7;
    let v_iavgselen: u32 = (x >> 22) & 0x1;
    let v_pavgselen: u32 = (x >> 23) & 0x1;
    let v_reserved: u32 = (x >> 24) & 0x3;
    let v_ecc: u32 = (x >> 26) & 0x3f;
    lemma_mask_bound(x, 0x1ff);
    lemma_mask_bound(x >> 9, 0x3ff);
    lemma_mask_bound(x >> 19, 0x7);
    lemma_mask_bound(x >> 22, 0x1);
    lemma_mask_bound(x >> 23, 0x1);
    lemma_mask_bound(x >> 24, 0x3);
    lemma_mask_bound(x >> 26, 0x3f);
    assert(r.qvo_fine as u32 == v_qvo_fine);
    assert(r.sns_fine as u32 == v_sns_fine);
    assert(r.crs_sns as u32 == v_crs_sns);
    assert((if r.iavgselen { 1u32 } else { 0u32 }) == v_iavgselen);
    assert((if r.pavgselen { 1u32 } else { 0u32 }) == v_pavgselen);
    assert(r.reserved as u32 == v_reserved);
    assert(r.ecc as u32 == v_ecc);
    assert(v_qvo_fine | (v_sns_fine << 9) | (v_crs_sns << 19) | (v_iavgselen << 22) | (v_pavgselen << 23) | (v_reserved << 24) | (v_ecc << 26) == x) by (bit_vector)
        requires
            v_qvo_fine == x & 0x1ff,
            v_sns_fine == (x >> 9) & 0x3ff,
            v_crs_sns == (x >> 19) & 0x7,
            v_iavgselen == (x >> 22) & 0x1,
            v_pavgselen == (x >> 23) & 0x1,
            v_reserved == (x >> 24) & 0x3,
            v_ecc == (x >> 26) & 0x3f,
    ;
    assert(r.to_bits_spec() == x);
}

/// Re-encoding a decoded 4-byte `Reg0b` payload reproduces the payload,
/// bits outside the named fields included.
pub proof fn lemma_reg0b_payload_round_trip(b: Seq<u8>)
    requires
        b.len() == 4,
    ensures
        le_of_word(Reg0b::from_bits_spec(word_of_le(b)).to_bits_spec()) == b,
{
    lemma_reg0b_encode_decode(word_of_le(b));
    lemma_le_of_word_of_le(b);
}

/// Configuration register 0x0C: oversampling and offset trim.
#[derive(Clone, Copy, Debug, PartialEq, Eq, Structural)]
pub struct Reg0c {
    /// Bit 0..6: 7-bit field `rms_avg_1`.
    pub rms_avg_1: u8,
    /// Bit 7..16: 10-bit field `rms_avg_2`.
    pub rms_avg_2: u16,
    /// Bit 17..24: 8-bit field `vchan_offset_code`.
    pub vchan_offset_code: u8,
    /// Bit 25: 1-bit field `reserved`.
    pub reserved: u8,
    /// Bit 26..31: 6-bit field `ecc`.
    pub ecc: u8,
}

impl Reg0c {
    /// Every field fits its declared bit width.
    pub open spec fn wf(self) -> bool {
        self.rms_avg_1 < 0x80 && self.rms_avg_2 < 0x400 && self.reserved < 0x2 && self.ecc < 0x40
    }

    /// Pack the fields into the 32-bit register word.
    pub open spec fn to_bits_spec(self) -> u32 {
        (self.rms_avg_1 as u32) | ((self.rms_avg_2 as u32) << 7) | ((self.vchan_offset_code as u32) << 17) | ((self.reserved as u32) << 25) | ((self.ecc as u32) << 26)
    }

    /// Unpack a 32-bit register word into its fields.
    pub open spec fn from_bits_spec(x: u32) -> Reg0c {
        Reg0c {
            rms_avg_1: (x & 0x7f) as u8,
            rms_avg_2: ((x >> 7) & 0x3ff) as u16,
            vchan_offset_code: ((x >> 17) & 0xff) as u8,
            reserved: ((x >> 25) & 0x1) as u8,
            ecc: ((x >> 26) & 0x3f) as u8,
        }
    }

    /// An all-zero field set: the starting point of an encode.
    pub fn new() -> (r: Reg0c)
        ensures
            r.rms_avg_1 == 0,
            r.rms_avg_2 == 0,
            r.vchan_offset_code == 0,
            r.reserved == 0,
            r.ecc == 0,
            r.wf(),
    {
        Reg0c {
            rms_avg_1: 0,
            rms_avg_2: 0,
            vchan_offset_code: 0,
            reserved: 0,
            ecc: 0,
        }
    }

    /// Unpack a 32-bit register word into its fields.
    pub fn from_bits(x: u32) -> (r: Reg0c)
        ensures
            r == Reg0c::from_bits_spec(x),
            r.wf(),
    {
        proof {
            lemma_mask_bound(x, 0x7f);
            lemma_mask_bound(x >> 7, 0x3ff);
            lemma_mask_bound(x >> 25, 0x1);
            lemma_mask_bound(x >> 26, 0x3f);
        }
        Reg0c {
            rms_avg_1: (x & 0x7f) as u8,
            rms_avg_2: ((x >> 7) & 0x3ff) as u16,
            vchan_offset_code: ((x >> 17) & 0xff) as u8,
            reserved: ((x >> 25) & 0x1) as u8,
            ecc: ((x >> 26) & 0x3f) as u8,
        }
    }

    /// Pack the fields into the 32-bit register word.
    pub fn to_bits(self) -> (x: u32)
        requires
            self.wf(),
        ensures
            x == self.to_bits_spec(),
    {
        (self.rms_avg_1 as u32) | ((self.rms_avg_2 as u32) << 7) | ((self.vchan_offset_code as u32) << 17) | ((self.reserved as u32) << 25) | ((self.ecc as u32) << 26)
    }

    /// Decode a 4-byte payload in little-endian wire order.
    pub fn from_bytes(bytes: [u8; 4]) -> (r: Reg0c)
        ensures
            r == Reg0c::from_bits_spec(word_of_le(bytes@)),
            r.wf(),
    {
        Reg0c::from_bits(bytes_to_word(bytes))
    }

    /// Encode the fields into a 4-byte payload in little-endian wire order.
    pub fn into_bytes(self) -> (bytes: [u8; 4])
        requires
            self.wf(),
        ensures
            bytes@ == le_of_word(self.to_bits_spec()),
    {
        word_to_bytes(self.to_bits())
    }
}

/// Decoding an encoded `Reg0c` field set returns the field set unchanged.
pub proof fn lemma_reg0c_decode_encode(r: Reg0c)
    requires
        r.wf(),
    ensures
        Reg0c::from_bits_spec(r.to_bits_spec()) == r,
{
    let v_rms_avg_1: u32 = r.rms_avg_1 as u32;
    let v_rms_avg_2: u32 = r.rms_avg_2 as u32;
    let v_vchan_offset_code: u32 = r.vchan_offset_code as u32;
    let v_reserved: u32 = r.reserved as u32;
    let v_ecc: u32 = r.ecc as u32;
    let w: u32 = r.to_bits_spec();
    assert((w & 0x7f) == v_rms_avg_1 && ((w >> 7) & 0x3ff) == v_rms_avg_2 && ((w >> 17) & 0xff) == v_vchan_offset_code && ((w >> 25) & 0x1) == v_reserved && ((w >> 26) & 0x3f) == v_ecc) by (bit_vector)
        requires
            v_rms_avg_1 < 0x80,
            v_rms_avg_2 < 0x400,
            v_vchan_offset_code < 0x100,
            v_reserved < 0x2,
            v_ecc < 0x40,
            w == v_rms_avg_1 | (v_rms_avg_2 << 7) | (v_vchan_offset_code << 17) | (v_reserved << 25) | (v_ecc << 26),
    ;
    assert(Reg0c::from_bits_spec(w) == r);
}

/// Encoding a decoded `Reg0c` payload word reproduces it bit for bit,
/// reserved ranges included.
pub proof fn lemma_reg0c_encode_decode(x: u32)
    ensures
        Reg0c::from_bits_spec(x).to_bits_spec() == x,
{
    let r = Reg0c::from_bits_spec(x);
    let v_rms_avg_1: u32 = x & 0x7f;
    let v_rms_avg_2: u32 = (x >> 7) & 0x3ff;
    let v_vchan_offset_code: u32 = (x >> 17) & 0xff;
    let v_reserved: u32 = (x >> 25) & 0x1;
    let v_ecc: u32 = (x >> 26) & 0x3f;
    lemma_mask_bound(x, 0x7f);
    lemma_mask_bound(x >> 7, 0x3ff);
    lemma_mask_bound(x >> 17, 0xff);
    lemma_mask_bound(x >> 25, 0x1);
    lemma_mask_bound(x >> 26, 0x3f);
    assert(r.rms_avg_1 as u32 == v_rms_avg_1);
    assert(r.rms_avg_2 as u32 == v_rms_avg_2);
    assert(r.vchan_offset_code as u32 == v_vchan_offset_code);
    assert(r.reserved as u32 == v_reserved);
    assert(r.ecc as u32 == v_ecc);
    assert(v_rms_avg_1 | (v_rms_avg_2 << 7) | (v_vchan_offset_code << 17) | (v_reserved << 25) | (v_ecc << 26) == x) by (bit_vector)
        requires
            v_rms_avg_1 == x & 0x7f,
            v_rms_avg_2 == (x >> 7) & 0x3ff,
            v_vchan_offset_code == (x >> 17) & 0xff,
            v_reserved == (x >> 25) & 0x1,
            v_ecc == (x >> 26) & 0x3f,
    ;
    assert(r.to_bits_spec() == x);
}

/// Re-encoding a decoded 4-byte `Reg0c` payload reproduces the payload,
/// bits outside the named fields included.
pub proof fn lemma_reg0c_payload_round_trip(b: Seq<u8>)
    requires
        b.len() == 4,
    ensures
        le_of_word(Reg0c::from_bits_spec(word_of_le(b)).to_bits_spec()) == b,
{
    lemma_reg0c_encode_decode(word_of_le(b));
    lemma_le_of_word_of_le(b);
}

/// Configuration register 0x0D: channel delay and fault threshold.
#[derive(Clone, Copy, Debug, PartialEq, Eq, Structural)]
pub struct Reg0d {
    /// Bit 0..6: 7-bit field `reserved1`.
    pub reserved1: u8,
    /// Bit 7: 1-bit field `ichan_del_en`.
    pub ichan_del_en: u8,
    /// Bit 8: 1-bit field `reserved2`.
    pub reserved2: u8,
    /// Bit 9..11: 3-bit field `chan_del_sel`.
    pub chan_del_sel: u8,
    /// Bit 12: 1-bit field `reserved3`.
    pub reserved3: u8,
    /// Bit 13..20: 8-bit field `fault`.
    pub fault: u8,
    /// Bit 21..23: 3-bit field `fltdly`.
    pub fltdly: u8,
    /// Bit 24..25: 2-bit field `reserved4`.
    pub reserved4: u8,
    /// Bit 26..31: 6-bit field `ecc`.
    pub ecc: u8,
}

impl Reg0d {
    /// Every field fits its declared bit width.
    pub open spec fn wf(self) -> bool {
        self.reserved1 < 0x80 && self.ichan_del_en < 0x2 && self.reserved2 < 0x2 && self.chan_del_sel < 0x8 && self.reserved3 < 0x2 && self.fltdly < 0x8 && self.reserved4 < 0x4 && self.ecc < 0x40
    }

    /// Pack the fields into the 32-bit register word.
    pub open spec fn to_bits_spec(self) -> u32 {
        (self.reserved1 as u32) | ((self.ichan_del_en as u32) << 7) | ((self.reserved2 as u32) << 8) | ((self.chan_del_sel as u32) << 9) | ((self.reserved3 as u32) << 12) | ((self.fault as u32) << 13) | ((self.fltdly as u32) << 21) | ((self.reserved4 as u32) << 24) | ((self.ecc as u32) << 26)
    }

    /// Unpack a 32-bit register word into its fields.
    pub open spec fn from_bits_spec(x: u32) -> Reg0d {
        Reg0d {
            reserved1: (x & 0x7f) as u8,
            ichan_del_en: ((x >> 7) & 0x1) as u8,
            reserved2: ((x >> 8) & 0x1) as u8,
            chan_del_sel: ((x >> 9) & 0x7) as u8,
            reserved3: ((x >> 12) & 0x1) as u8,
            fault: ((x >> 13) & 0xff) as u8,
            fltdly: ((x >> 21) & 0x7) as u8,
            reserved4: ((x >> 24) & 0x3) as u8,
            ecc: ((x >> 26) & 0x3f) as u8,
        }
    }

    /// An all-zero field set: the starting point of an encode.
    pub fn new() -> (r: Reg0d)
        ensures
            r.reserved1 == 0,
            r.ichan_del_en == 0,
            r.reserved2 == 0,
            r.chan_del_sel == 0,
            r.reserved3 == 0,
            r.fault == 0,
            r.fltdly == 0,
            r.reserved4 == 0,
            r.ecc == 0,
            r.wf(),
    {
        Reg0d {
            reserved1: 0,
            ichan_del_en: 0,
            reserved2: 0,
            chan_del_sel: 0,
            reserved3: 0,
            fault: 0,
            fltdly: 0,
            reserved4: 0,
            ecc: 0,
        }
    }

    /// Unpack a 32-bit register word into its fields.
    pub fn from_bits(x: u32) -> (r: Reg0d)
        ensures
            r == Reg0d::from_bits_spec(x),
            r.wf(),
    {
        proof {
            lemma_mask_bound(x, 0x7f);
            lemma_mask_bound(x >> 7, 0x1);
            lemma_mask_bound(x >> 8, 0x1);
            lemma_mask_bound(x >> 9, 0x7);
            lemma_mask_bound(x >> 12, 0x1);
            lemma_mask_bound(x >> 21, 0x7);
            lemma_mask_bound(x >> 24, 0x3);
            lemma_mask_bound(x >> 26, 0x3f);
        }
        Reg0d {
            reserved1: (x & 0x7f) as u8,
            ichan_del_en: ((x >> 7) & 0x1) as u8,
            reserved2: ((x >> 8) & 0x1) as u8,
            chan_del_sel: ((x >> 9) & 0x7) as u8,
            reserved3: ((x >> 12) & 0x1) as u8,
            fault: ((x >> 13) & 0xff) as u8,
            fltdly: ((x >> 21) & 0x7) as u8,
            reserved4: ((x >> 24) & 0x3) as u8,
            ecc: ((x >> 26) & 0x3f) as u8,
        }
    }

    /// Pack the fields into the 32-bit register word.
    pub fn to_bits(self) -> (x: u32)
        requires
            self.wf(),
        ensures
            x == self.to_bits_spec(),
    {
        (self.reserved1 as u32) | ((self.ichan_del_en as u32) << 7) | ((self.reserved2 as u32) << 8) | ((self.chan_del_sel as u32) << 9) | ((self.reserved3 as u32) << 12) | ((self.fault as u32) << 13) | ((self.fltdly as u32) << 21) | ((self.reserved4 as u32) << 24) | ((self.ecc as u32) << 26)
    }

    /// Decode a 4-byte payload in little-endian wire order.
    pub fn from_bytes(bytes: [u8; 4]) -> (r: Reg0d)
        ensures
            r == Reg0d::from_bits_spec(word_of_le(bytes@)),
            r.wf(),
    {
        Reg0d::from_bits(bytes_to_word(bytes))
    }

    /// Encode the fields into a 4-byte payload in little-endian wire order.
    pub fn into_bytes(self) -> (bytes: [u8; 4])
        requires
            self.wf(),
        ensures
            bytes@ == le_of_word(self.to_bits_spec()),
    {
        word_to_bytes(self.to_bits())
    }
}

/// Decoding an encoded `Reg0d` field set returns the field set unchanged.
pub proof fn lemma_reg0d_decode_encode(r: Reg0d)
    requires
        r.wf(),
    ensures
        Reg0d::from_bits_spec(r.to_bits_spec()) == r,
{
    let v_reserved1: u32 = r.reserved1 as u32;
    let v_ichan_del_en: u32 = r.ichan_del_en as u32;
    let v_reserved2: u32 = r.reserved2 as u32;
    let v_chan_del_sel: u32 = r.chan_del_sel as u32;
    let v_reserved3: u32 = r.reserved3 as u32;
    let v_fault: u32 = r.fault as u32;
    let v_fltdly: u32 = r.fltdly as u32;
    let v_reserved4: u32 = r.reserved4 as u32;
    let v_ecc: u32 = r.ecc as u32;
    let w: u32 = r.to_bits_spec();
    assert((w & 0x7f) == v_reserved1 && ((w >> 7) & 0x1) == v_ichan_del_en && ((w >> 8) & 0x1) == v_reserved2 && ((w >> 9) & 0x7) == v_chan_del_sel && ((w >> 12) & 0x1) == v_reserved3 && ((w >> 13) & 0xff) == v_fault && ((w >> 21) & 0x7) == v_fltdly && ((w >> 24) & 0x3) == v_reserved4 && ((w >> 26) & 0x3f) == v_ecc) by (bit_vector)
        requires
            v_reserved1 < 0x80,
            v_ichan_del_en < 0x2,
            v_reserved2 < 0x2,
            v_chan_del_sel < 0x8,
            v_reserved3 < 0x2,
            v_fault < 0x100,
            v_fltdly < 0x8,
            v_reserved4 < 0x4,
            v_ecc < 0x40,
            w == v_reserved1 | (v_ichan_del_en << 7) | (v_reserved2 << 8) | (v_chan_del_sel << 9) | (v_reserved3 << 12) | (v_fault << 13) | (v_fltdly << 21) | (v_reserved4 << 24) | (v_ecc << 26),
    ;
    assert(Reg0d::from_bits_spec(w) == r);
}

/// Encoding a decoded `Reg0d` payload word reproduces it bit for bit,
/// reserved ranges included.
pub proof fn lemma_reg0d_encode_decode(x: u32)
    ensures
        Reg0d::from_bits_spec(x).to_bits_spec() == x,
{
    let r = Reg0d::from_bits_spec(x);
    let v_reserved1: u32 = x & 0x7f;
    let v_ichan_del_en: u32 = (x >> 7) & 0x1;
    let v_reserved2: u32 = (x >> 8) & 0x1;
    let v_chan_del_sel: u32 = (x >> 9) & 0x7;
    let v_reserved3: u32 = (x >> 12) & 0x1;
    let v_fault: u32 = (x >> 13) & 0xff;
    let v_fltdly: u32 = (x >> 21) & 0x7;
    let v_reserved4: u32 = (x >> 24) & 0x3;
    let v_ecc: u32 = (x >> 26) & 0x3f;
    lemma_mask_bound(x, 0x7f);
    lemma_mask_bound(x >> 7, 0x1);
    lemma_mask_bound(x >> 8, 0x1);
    lemma_mask_bound(x >> 9, 0x7);
    lemma_mask_bound(x >> 12, 0x1);
    lemma_mask_bound(x >> 13, 0xff);
    lemma_mask_bound(x >> 21, 0x7);
    lemma_mask_bound(x >> 24, 0x3);
    lemma_mask_bound(x >> 26, 0x3f);
    assert(r.reserved1 as u32 == v_reserved1);
    assert(r.ichan_del_en as u32 == v_ichan_del_en);
    assert(r.reserved2 as u32 == v_reserved2);
    assert(r.chan_del_sel as u32 == v_chan_del_sel);
    assert(r.reserved3 as u32 == v_reserved3);
    assert(r.fault as u32 == v_fault);
    assert(r.fltdly as u32 == v_fltdly);
    assert(r.reserved4 as u32 == v_reserved4);
    assert(r.ecc as u32 == v_ecc);
    assert(v_reserved1 | (v_ichan_del_en << 7) | (v_reserved2 << 8) | (v_chan_del_sel << 9) | (v_reserved3 << 12) | (v_fault << 13) | (v_fltdly << 21) | (v_reserved4 << 24) | (v_ecc << 26) == x) by (bit_vector)
        requires
            v_reserved1 == x & 0x7f,
            v_ichan_del_en == (x >> 7) & 0x1,
            v_reserved2 == (x >> 8) & 0x1,
            v_chan_del_sel == (x >> 9) & 0x7,
            v_reserved3 == (x >> 12) & 0x1,
            v_fault == (x >> 13) & 0xff,
            v_fltdly == (x >> 21) & 0x7,
            v_reserved4 == (x >> 24) & 0x3,
            v_ecc == (x >> 26) & 0x3f,
    ;
    assert(r.to_bits_spec() == x);
}

/// Re-encoding a decoded 4-byte `Reg0d` payload reproduces the payload,
/// bits outside the named fields included.
pub proof fn lemma_reg0d_payload_round_trip(b: Seq<u8>)
    requires
        b.len() == 4,
    ensures
        le_of_word(Reg0d::from_bits_spec(word_of_le(b)).to_bits_spec()) == b,
{
    lemma_reg0d_encode_decode(word_of_le(b));
    lemma_le_of_word_of_le(b);
}

/// Configuration register 0x0E: voltage event thresholds and zero-cross options.
#[derive(Clone, Copy, Debug, PartialEq, Eq, Structural)]
pub struct Reg0e {
    /// Bit 0..5: 6-bit field `vevent_cycs`.
    pub vevent_cycs: u8,
    /// Bit 6..7: 2-bit field `reserved1`.
    pub reserved1: u8,
    /// Bit 8..13: 6-bit field `overvreg`.
    pub overvreg: u8,
    /// Bit 14..19: 6-bit field `undervreg`.
    pub undervreg: u8,
    /// Bit 20: 1-bit field `delaycnt_sel`.
    pub delaycnt_sel: u8,
    /// Bit 21: 1-bit field `halfcycle_en`.
    pub halfcycle_en: u8,
    /// Bit 22: 1-bit field `squarewave_en`.
    pub squarewave_en: u8,
    /// Bit 23: 1-bit field `zerocrosschansel`.
    pub zerocrosschansel: u8,
    /// Bit 24: 1-bit field `zerocrossedgesel`.
    pub zerocrossedgesel: u8,
    /// Bit 25: 1-bit field `reserved2`.
    pub reserved2: u8,
    /// Bit 26..31: 6-bit field `ecc`.
    pub ecc: u8,
}

impl Reg0e {
    /// Every field fits its declared bit width.
    pub open spec fn wf(self) -> bool {
        self.vevent_cycs < 0x40 && self.reserved1 < 0x4 && self.overvreg < 0x40 && self.undervreg < 0x40 && self.delaycnt_sel < 0x2 && self.halfcycle_en < 0x2 && self.squarewave_en < 0x2 && self.zerocrosschansel < 0x2 && self.zerocrossedgesel < 0x2 && self.reserved2 < 0x2 && self.ecc < 0x40
    }

    /// Pack the fields into the 32-bit register word.
    pub open spec fn to_bits_spec(self) -> u32 {
        (self.vevent_cycs as u32) | ((self.reserved1 as u32) << 6) | ((self.overvreg as u32) << 8) | ((self.undervreg as u32) << 14) | ((self.delaycnt_sel as u32) << 20) | ((self.halfcycle_en as u32) << 21) | ((self.squarewave_en as u32) << 22) | ((self.zerocrosschansel as u32) << 23) | ((self.zerocrossedgesel as u32) << 24) | ((self.reserved2 as u32) << 25) | ((self.ecc as u32) << 26)
    }

    /// Unpack a 32-bit register word into its fields.
    pub open spec fn from_bits_spec(x: u32) -> Reg0e {
        Reg0e {
            vevent_cycs: (x & 0x3f) as u8,
            reserved1: ((x >> 6) & 0x3) as u8,
            overvreg: ((x >> 8) & 0x3f) as u8,
            undervreg: ((x >> 14) & 0x3f) as u8,
            delaycnt_sel: ((x >> 20) & 0x1) as u8,
            halfcycle_en: ((x >> 21) & 0x1) as u8,
            squarewave_en: ((x >> 22) & 0x1) as u8,
            zerocrosschansel: ((x >> 23) & 0x1) as u8,
            zerocrossedgesel: ((x >> 24) & 0x1) as u8,
            reserved2: ((x >> 25) & 0x1) as u8,
            ecc: ((x >> 26) & 0x3f) as u8,
        }
    }

    /// An all-zero field set: the starting point of an encode.
    pub fn new() -> (r: Reg0e)
        ensures
            r.vevent_cycs == 0,
            r.reserved1 == 0,
            r.overvreg == 0,
            r.undervreg == 0,
            r.delaycnt_sel == 0,
            r.halfcycle_en == 0,
            r.squarewave_en == 0,
            r.zerocrosschansel == 0,
            r.zerocrossedgesel == 0,
            r.reserved2 == 0,
            r.ecc == 0,
            r.wf(),
    {
        Reg0e {
            vevent_cycs: 0,
            reserved1: 0,
            overvreg: 0,
            undervreg: 0,
            delaycnt_sel: 0,
            halfcycle_en: 0,
            squarewave_en: 0,
            zerocrosschansel: 0,
            zerocrossedgesel: 0,
            reserved2: 0,
            ecc: 0,
        }
    }

    /// Unpack a 32-bit register word into its fields.
    pub fn from_bits(x: u32) -> (r: Reg0e)
        ensures
            r == Reg0e::from_bits_spec(x),
            r.wf(),
    {
        proof {
            lemma_mask_bound(x, 0x3f);
            lemma_mask_bound(x >> 6, 0x3);
            lemma_mask_bound(x >> 8, 0x3f);
            lemma_mask_bound(x >> 14, 0x3f);
            lemma_mask_bound(x >> 20, 0x1);
            lemma_mask_bound(x >> 21, 0x1);
            lemma_mask_bound(x >> 22, 0x1);
            lemma_mask_bound(x >> 23, 0x1);
            lemma_mask_bound(x >> 24, 0x1);
            lemma_mask_bound(x >> 25, 0x1);
            lemma_mask_bound(x >> 26, 0x3f);
        }
        Reg0e {
            vevent_cycs: (x & 0x3f) as u8,
            reserved1: ((x >> 6) & 0x3) as u8,
            overvreg: ((x >> 8) & 0x3f) as u8,
            undervreg: ((x >> 14) & 0x3f) as u8,
            delaycnt_sel: ((x >> 20) & 0x1) as u8,
            halfcycle_en: ((x >> 21) & 0x1) as u8,
            squarewave_en: ((x >> 22) & 0x1) as u8,
            zerocrosschansel: ((x >> 23) & 0x1) as u8,
            zerocrossedgesel: ((x >> 24) & 0x1) as u8,
            reserved2: ((x >> 25) & 0x1) as u8,
            ecc: ((x >> 26) & 0x3f) as u8,
        }
    }

    /// Pack the fields into the 32-bit register word.
    pub fn to_bits(self) -> (x: u32)
        requires
            self.wf(),
        ensures
            x == self.to_bits_spec(),
    {
        (self.vevent_cycs as u32) | ((self.reserved1 as u32) << 6) | ((self.overvreg as u32) << 8) | ((self.undervreg as u32) << 14) | ((self.delaycnt_sel as u32) << 20) | ((self.halfcycle_en as u32) << 21) | ((self.squarewave_en as u32) << 22) | ((self.zerocrosschansel as u32) << 23) | ((self.zerocrossedgesel as u32) << 24) | ((self.reserved2 as u32) << 25) | ((self.ecc as u32) << 26)
    }

    /// Decode a 4-byte payload in little-endian wire order.
    pub fn from_bytes(bytes: [u8; 4]) -> (r: Reg0e)
        ensures
            r == Reg0e::from_bits_spec(word_of_le(bytes@)),
            r.wf(),
    {
        Reg0e::from_bits(bytes_to_word(bytes))
    }

    /// Encode the fields into a 4-byte payload in little-endian wire order.
    pub fn into_bytes(self) -> (bytes: [u8; 4])
        requires
            self.wf(),
        ensures
            bytes@ == le_of_word(self.to_bits_spec()),
    {
        word_to_bytes(self.to_bits())
    }
}

/// Decoding an encoded `Reg0e` field set returns the field set unchanged.
pub proof fn lemma_reg0e_decode_encode(r: Reg0e)
    requires
        r.wf(),
    ensures
        Reg0e::from_bits_spec(r.to_bits_spec()) == r,
{
    let v_vevent_cycs: u32 = r.vevent_cycs as u32;
    let v_reserved1: u32 = r.reserved1 as u32;
    let v_overvreg: u32 = r.overvreg as u32;
    let v_undervreg: u32 = r.undervreg as u32;
    let v_delaycnt_sel: u32 = r.delaycnt_sel as u32;
    let v_halfcycle_en: u32 = r.halfcycle_en as u32;
    let v_squarewave_en: u32 = r.squarewave_en as u32;
    let v_zerocrosschansel: u32 = r.zerocrosschansel as u32;
    let v_zerocrossedgesel: u32 = r.zerocrossedgesel as u32;
    let v_reserved2: u32 = r.reserved2 as u32;
    let v_ecc: u32 = r.ecc as u32;
    let w: u32 = r.to_bits_spec();
    assert((w & 0x3f) == v_vevent_cycs && ((w >> 6) & 0x3) == v_reserved1 && ((w >> 8) & 0x3f) == v_overvreg && ((w >> 14) & 0x3f) == v_undervreg && ((w >> 20) & 0x1) == v_delaycnt_sel && ((w >> 21) & 0x1) == v_halfcycle_en && ((w >> 22) & 0x1) == v_squarewave_en && ((w >> 23) & 0x1) == v_zerocrosschansel && ((w >> 24) & 0x1) == v_zerocrossedgesel && ((w >> 25) & 0x1) == v_reserved2 && ((w >> 26) & 0x3f) == v_ecc) by (bit_vector)
        requires
            v_vevent_cycs < 0x40,
            v_reserved1 < 0x4,
            v_overvreg < 0x40,
            v_undervreg < 0x40,
            v_delaycnt_sel < 0x2,
            v_halfcycle_en < 0x2,
            v_squarewave_en < 0x2,
            v_zerocrosschansel < 0x2,
            v_zerocrossedgesel < 0x2,
            v_reserved2 < 0x2,
            v_ecc < 0x40,
            w == v_vevent_cycs | (v_reserved1 << 6) | (v_overvreg << 8) | (v_undervreg << 14) | (v_delaycnt_sel << 20) | (v_halfcycle_en << 21) | (v_squarewave_en << 22) | (v_zerocrosschansel << 23) | (v_zerocrossedgesel << 24) | (v_reserved2 << 25) | (v_ecc << 26),
    ;
    assert(Reg0e::from_bits_spec(w) == r);
}

/// Encoding a decoded `Reg0e` payload word reproduces it bit for bit,
/// reserved ranges included.
pub proof fn lemma_reg0e_encode_decode(x: u32)
    ensures
        Reg0e::from_bits_spec(x).to_bits_spec() == x,
{
    let r = Reg0e::from_bits_spec(x);
    let v_vevent_cycs: u32 = x & 0x3f;
    let v_reserved1: u32 = (x >> 6) & 0x3;
    let v_overvreg: u32 = (x >> 8) & 0x3f;
    let v_undervreg: u32 = (x >> 14) & 0x3f;
    let v_delaycnt_sel: u32 = (x >> 20) & 0x1;
    let v_halfcycle_en: u32 = (x >> 21) & 0x1;
    let v_squarewave_en: u32 = (x >> 22) & 0x1;
    let v_zerocrosschansel: u32 = (x >> 23) & 0x1;
    let v_zerocrossedgesel: u32 = (x >> 24) & 0x1;
    let v_reserved2: u32 = (x >> 25) & 0x1;
    let v_ecc: u32 = (x >> 26) & 0x3f;
    lemma_mask_bound(x, 0x3f);
    lemma_mask_bound(x >> 6, 0x3);
    lemma_mask_bound(x >> 8, 0x3f);
    lemma_mask_bound(x >> 14, 0x3f);
    lemma_mask_bound(x >> 20, 0x1);
    lemma_mask_bound(x >> 21, 0x1);
    lemma_mask_bound(x >> 22, 0x1);
    lemma_mask_bound(x >> 23, 0x1);
    lemma_mask_bound(x >> 24, 0x1);
    lemma_mask_bound(x >> 25, 0x1);
    lemma_mask_bound(x >> 26, 0x3f);
    assert(r.vevent_cycs as u32 == v_vevent_cycs);
    assert(r.reserved1 as u32 == v_reserved1);
    assert(r.overvreg as u32 == v_overvreg);
    assert(r.undervreg as u32 == v_undervreg);
    assert(r.delaycnt_sel as u32 == v_delaycnt_sel);
    assert(r.halfcycle_en as u32 == v_halfcycle_en);
    assert(r.squarewave_en as u32 == v_squarewave_en);
    assert(r.zerocrosschansel as u32 == v_zerocrosschansel);
    assert(r.zerocrossedgesel as u32 == v_zerocrossedgesel);
    assert(r.reserved2 as u32 == v_reserved2);
    assert(r.ecc as u32 == v_ecc);
    assert(v_vevent_cycs | (v_reserved1 << 6) | (v_overvreg << 8) | (v_undervreg << 14) | (v_delaycnt_sel << 20) | (v_halfcycle_en << 21) | (v_squarewave_en << 22) | (v_zerocrosschansel << 23) | (v_zerocrossedgesel << 24) | (v_reserved2 << 25) | (v_ecc << 26) == x) by (bit_vector)
        requires
            v_vevent_cycs == x & 0x3f,
            v_reserved1 == (x >> 6) & 0x3,
            v_overvreg == (x >> 8) & 0x3f,
            v_undervreg == (x >> 14) & 0x3f,
            v_delaycnt_sel == (x >> 20) & 0x1,
            v_halfcycle_en == (x >> 21) & 0x1,
            v_squarewave_en == (x >> 22) & 0x1,
            v_zerocrosschansel == (x >> 23) & 0x1,
            v_zerocrossedgesel == (x >> 24) & 0x1,
            v_reserved2 == (x >> 25) & 0x1,
            v_ecc == (x >> 26) & 0x3f,
    ;
    assert(r.to_bits_spec() == x);
}

/// Re-encoding a decoded 4-byte `Reg0e` payload reproduces the payload,
/// bits outside the named fields included.
pub proof fn lemma_reg0e_payload_round_trip(b: Seq<u8>)
    requires
        b.len() == 4,
    ensures
        le_of_word(Reg0e::from_bits_spec(word_of_le(b)).to_bits_spec()) == b,
{
    lemma_reg0e_encode_decode(word_of_le(b));
    lemma_le_of_word_of_le(b);
}

/// Configuration register 0x0F: bus address, digital I/O and bypass options.
#[derive(Clone, Copy, Debug, PartialEq, Eq, Structural)]
pub struct Reg0f {
    /// Bit 0..1: 2-bit field `reserved1`.
    pub reserved1: u8,
    /// Bit 2..8: 7-bit field `i2c_slv_addr`.
    pub i2c_slv_addr: u8,
    /// Bit 9: 1-bit field `i2c_dis_slv_addr`.
    pub i2c_dis_slv_addr: u8,
    /// Bit 10..11: 2-bit field `dio_0_sel`.
    pub dio_0_sel: u8,
    /// Bit 12..13: 2-bit field `dio_1_sel`.
    pub dio_1_sel: u8,
    /// Bit 14..23: 10-bit field `n`.
    pub n: u16,
    /// Bit 24: 1-bit field `bypass_n_en`.
    pub bypass_n_en: u8,
    /// Bit 25: 1-bit field `reserved2`.
    pub reserved2: u8,
    /// Bit 26..31: 6-bit field `ecc`.
    pub ecc: u8,
}

impl Reg0f {
    /// Every field fits its declared bit width.
    pub open spec fn wf(self) -> bool {
        self.reserved1 < 0x4 && self.i2c_slv_addr < 0x80 && self.i2c_dis_slv_addr < 0x2 && self.dio_0_sel < 0x4 && self.dio_1_sel < 0x4 && self.n < 0x400 && self.bypass_n_en < 0x2 && self.reserved2 < 0x2 && self.ecc < 0x40
    }

    /// Pack the fields into the 32-bit register word.
    pub open spec fn to_bits_spec(self) -> u32 {
        (self.reserved1 as u32) | ((self.i2c_slv_addr as u32) << 2) | ((self.i2c_dis_slv_addr as u32) << 9) | ((self.dio_0_sel as u32) << 10) | ((self.dio_1_sel as u32) << 12) | ((self.n as u32) << 14) | ((self.bypass_n_en as u32) << 24) | ((self.reserved2 as u32) << 25) | ((self.ecc as u32) << 26)
    }

    /// Unpack a 32-bit register word into its fields.
    pub open spec fn from_bits_spec(x: u32) -> Reg0f {
        Reg0f {
            reserved1: (x & 0x3) as u8,
            i2c_slv_addr: ((x >> 2) & 0x7f) as u8,
            i2c_dis_slv_addr: ((x >> 9) & 0x1) as u8,
            dio_0_sel: ((x >> 10) & 0x3) as u8,
            dio_1_sel: ((x >> 12) & 0x3) as u8,
            n: ((x >> 14) & 0x3ff) as u16,
            bypass_n_en: ((x >> 24) & 0x1) as u8,
            reserved2: ((x >> 25) & 0x1) as u8,
            ecc: ((x >> 26) & 0x3f) as u8,
        }
    }

    /// An all-zero field set: the starting point of an encode.
    pub fn new() -> (r: Reg0f)
        ensures
            r.reserved1 == 0,
            r.i2c_slv_addr == 0,
            r.i2c_dis_slv_addr == 0,
            r.dio_0_sel == 0,
            r.dio_1_sel == 0,
            r.n == 0,
            r.bypass_n_en == 0,
            r.reserved2 == 0,
            r.ecc == 0,
            r.wf(),
    {
        Reg0f {
            reserved1: 0,
            i2c_slv_addr: 0,
            i2c_dis_slv_addr: 0,
            dio_0_sel: 0,
            dio_1_sel: 0,
            n: 0,
            bypass_n_en: 0,
            reserved2: 0,
            ecc: 0,
        }
    }

    /// Unpack a 32-bit register word into its fields.
    pub fn from_bits(x: u32) -> (r: Reg0f)
        ensures
            r == Reg0f::from_bits_spec(x),
            r.wf(),
    {
        proof {
            lemma_mask_bound(x, 0x3);
            lemma_mask_bound(x >> 2, 0x7f);
            lemma_mask_bound(x >> 9, 0x1);
            lemma_mask_bound(x >> 10, 0x3);
            lemma_mask_bound(x >> 12, 0x3);
            lemma_mask_bound(x >> 14, 0x3ff);
            lemma_mask_bound(x >> 24, 0x1);
            lemma_mask_bound(x >> 25, 0x1);
            lemma_mask_bound(x >> 26, 0x3f);
        }
        Reg0f {
            reserved1: (x & 0x3) as u8,
            i2c_slv_addr: ((x >> 2) & 0x7f) as u8,
            i2c_dis_slv_addr: ((x >> 9) & 0x1) as u8,
            dio_0_sel: ((x >> 10) & 0x3) as u8,
            dio_1_sel: ((x >> 12) & 0x3) as u8,
            n: ((x >> 14) & 0x3ff) as u16,
            bypass_n_en: ((x >> 24) & 0x1) as u8,
            reserved2: ((x >> 25) & 0x1) as u8,
            ecc: ((x >> 26) & 0x3f) as u8,
        }
    }

    /// Pack the fields into the 32-bit register word.
    pub fn to_bits(self) -> (x: u32)
        requires
            self.wf(),
        ensures
            x == self.to_bits_spec(),
    {
        (self.reserved1 as u32) | ((self.i2c_slv_addr as u32) << 2) | ((self.i2c_dis_slv_addr as u32) << 9) | ((self.dio_0_sel as u32) << 10) | ((self.dio_1_sel as u32) << 12) | ((self.n as u32) << 14) | ((self.bypass_n_en as u32) << 24) | ((self.reserved2 as u32) << 25) | ((self.ecc as u32) << 26)
    }

    /// Decode a 4-byte payload in little-endian wire order.
    pub fn from_bytes(bytes: [u8; 4]) -> (r: Reg0f)
        ensures
            r == Reg0f::from_bits_spec(word_of_le(bytes@)),
            r.wf(),
    {
        Reg0f::from_bits(bytes_to_word(bytes))
    }

    /// Encode the fields into a 4-byte payload in little-endian wire order.
    pub fn into_bytes(self) -> (bytes: [u8; 4])
        requires
            self.wf(),
        ensures
            bytes@ == le_of_word(self.to_bits_spec()),
    {
        word_to_bytes(self.to_bits())
    }
}

/// Decoding an encoded `Reg0f` field set returns the field set unchanged.
pub proof fn lemma_reg0f_decode_encode(r: Reg0f)
    requires
        r.wf(),
    ensures
        Reg0f::from_bits_spec(r.to_bits_spec()) == r,
{
    let v_reserved1: u32 = r.reserved1 as u32;
    let v_i2c_slv_addr: u32 = r.i2c_slv_addr as u32;
    let v_i2c_dis_slv_addr: u32 = r.i2c_dis_slv_addr as u32;
    let v_dio_0_sel: u32 = r.dio_0_sel as u32;
    let v_dio_1_sel: u32 = r.dio_1_sel as u32;
    let v_n: u32 = r.n as u32;
    let v_bypass_n_en: u32 = r.bypass_n_en as u32;
    let v_reserved2: u32 = r.reserved2 as u32;
    let v_ecc: u32 = r.ecc as u32;
    let w: u32 = r.to_bits_spec();
    assert((w & 0x3) == v_reserved1 && ((w >> 2) & 0x7f) == v_i2c_slv_addr && ((w >> 9) & 0x1) == v_i2c_dis_slv_addr && ((w >> 10) & 0x3) == v_dio_0_sel && ((w >> 12) & 0x3) == v_dio_1_sel && ((w >> 14) & 0x3ff) == v_n && ((w >> 24) & 0x1) == v_bypass_n_en && ((w >> 25) & 0x1) == v_reserved2 && ((w >> 26) & 0x3f) == v_ecc) by (bit_vector)
        requires
            v_reserved1 < 0x4,
            v_i2c_slv_addr < 0x80,
            v_i2c_dis_slv_addr < 0x2,
            v_dio_0_sel < 0x4,
            v_dio_1_sel < 0x4,
            v_n < 0x400,
            v_bypass_n_en < 0x2,
            v_reserved2 < 0x2,
            v_ecc < 0x40,
            w == v_reserved1 | (v_i2c_slv_addr << 2) | (v_i2c_dis_slv_addr << 9) | (v_dio_0_sel << 10) | (v_dio_1_sel << 12) | (v_n << 14) | (v_bypass_n_en << 24) | (v_reserved2 << 25) | (v_ecc << 26),
    ;
    assert(Reg0f::from_bits_spec(w) == r);
}

/// Encoding a decoded `Reg0f` payload word reproduces it bit for bit,
/// reserved ranges included.
pub proof fn lemma_reg0f_encode_decode(x: u32)
    ensures
        Reg0f::from_bits_spec(x).to_bits_spec() == x,
{
    let r = Reg0f::from_bits_spec(x);
    let v_reserved1: u32 = x & 0x3;
    let v_i2c_slv_addr: u32 = (x >> 2) & 0x7f;
    let v_i2c_dis_slv_addr: u32 = (x >> 9) & 0x1;
    let v_dio_0_sel: u32 = (x >> 10) & 0x3;
    let v_dio_1_sel: u32 = (x >> 12) & 0x3;
    let v_n: u32 = (x >> 14) & 0x3ff;
    let v_bypass_n_en: u32 = (x >> 24) & 0x1;
    let v_reserved2: u32 = (x >> 25) & 0x1;
    let v_ecc: u32 = (x >> 26) & 0x3f;
    lemma_mask_bound(x, 0x3);
    lemma_mask_bound(x >> 2, 0x7f);
    lemma_mask_bound(x >> 9, 0x1);
    lemma_mask_bound(x >> 10, 0x3);
    lemma_mask_bound(x >> 12, 0x3);
    lemma_mask_bound(x >> 14, 0x3ff);
    lemma_mask_bound(x >> 24, 0x1);
    lemma_mask_bound(x >> 25, 0x1);
    lemma_mask_bound(x >> 26, 0x3f);
    assert(r.reserved1 as u32 == v_reserved1);
    assert(r.i2c_slv_addr as u32 == v_i2c_slv_addr);
    assert(r.i2c_dis_slv_addr as u32 == v_i2c_dis_slv_addr);
    assert(r.dio_0_sel as u32 == v_dio_0_sel);
    assert(r.dio_1_sel as u32 == v_dio_1_sel);
    assert(r.n as u32 == v_n);
    assert(r.bypass_n_en as u32 == v_bypass_n_en);
    assert(r.reserved2 as u32 == v_reserved2);
    assert(r.ecc as u32 == v_ecc);
    assert(v_reserved1 | (v_i2c_slv_addr << 2) | (v_i2c_dis_slv_addr << 9) | (v_dio_0_sel << 10) | (v_dio_1_sel << 12) | (v_n << 14) | (v_bypass_n_en << 24) | (v_reserved2 << 25) | (v_ecc << 26) == x) by (bit_vector)
        requires
            v_reserved1 == x & 0x3,
            v_i2c_slv_addr == (x >> 2) & 0x7f,
            v_i2c_dis_slv_addr == (x >> 9) & 0x1,
            v_dio_0_sel == (x >> 10) & 0x3,
            v_dio_1_sel == (x >> 12) & 0x3,
            v_n == (x >> 14) & 0x3ff,
            v_bypass_n_en == (x >> 24) & 0x1,
            v_reserved2 == (x >> 25) & 0x1,
            v_ecc == (x >> 26) & 0x3f,
    ;
    assert(r.to_bits_spec() == x);
}

/// Re-encoding a decoded 4-byte `Reg0f` payload reproduces the payload,
/// bits outside the named fields included.
pub proof fn lemma_reg0f_payload_round_trip(b: Seq<u8>)
    requires
        b.len() == 4,
    ensures
        le_of_word(Reg0f::from_bits_spec(word_of_le(b)).to_bits_spec()) == b,
{
    lemma_reg0f_encode_decode(word_of_le(b));
    lemma_le_of_word_of_le(b);
}

/// Voltage/current pair, used for RMS, averaged and instantaneous reads.
#[derive(Clone, Copy, Debug, PartialEq, Eq, Structural)]
pub struct RegVI {
    /// Bit 0..15: 16-bit field `voltage`.
    pub voltage: u16,
    /// Bit 16..31: 16-bit field `current`.
    pub current: u16,
}

impl RegVI {
    /// Every field fits its declared bit width.
    pub open spec fn wf(self) -> bool {
        true
    }

    /// Pack the fields into the 32-bit register word.
    pub open spec fn to_bits_spec(self) -> u32 {
        (self.voltage as u32) | ((self.current as u32) << 16)
    }

    /// Unpack a 32-bit register word into its fields.
    pub open spec fn from_bits_spec(x: u32) -> RegVI {
        RegVI {
            voltage: (x & 0xffff) as u16,
            current: ((x >> 16) & 0xffff) as u16,
        }
    }

    /// An all-zero field set: the starting point of an encode.
    pub fn new() -> (r: RegVI)
        ensures
            r.voltage == 0,
            r.current == 0,
            r.wf(),
    {
        RegVI {
            voltage: 0,
            current: 0,
        }
    }

    /// Unpack a 32-bit register word into its fields.
    pub fn from_bits(x: u32) -> (r: RegVI)
        ensures
            r == RegVI::from_bits_spec(x),
            r.wf(),
    {
        RegVI {
            voltage: (x & 0xffff) as u16,
            current: ((x >> 16) & 0xffff) as u16,
        }
    }

    /// Pack the fields into the 32-bit register word.
    pub fn to_bits(self) -> (x: u32)
        requires
            self.wf(),
        ensures
            x == self.to_bits_spec(),
    {
        (self.voltage as u32) | ((self.current as u32) << 16)
    }

    /// Decode a 4-byte payload in little-endian wire order.
    pub fn from_bytes(bytes: [u8; 4]) -> (r: RegVI)
        ensures
            r == RegVI::from_bits_spec(word_of_le(bytes@)),
            r.wf(),
    {
        RegVI::from_bits(bytes_to_word(bytes))
    }

    /// Encode the fields into a 4-byte payload in little-endian wire order.
    pub fn into_bytes(self) -> (bytes: [u8; 4])
        requires
            self.wf(),
        ensures
            bytes@ == le_of_word(self.to_bits_spec()),
    {
        word_to_bytes(self.to_bits())
    }
}

/// Decoding an encoded `RegVI` field set returns the field set unchanged.
pub proof fn lemma_reg_vi_decode_encode(r: RegVI)
    requires
        r.wf(),
    ensures
        RegVI::from_bits_spec(r.to_bits_spec()) == r,
{
    let v_voltage: u32 = r.voltage as u32;
    let v_current: u32 = r.current as u32;
    let w: u32 = r.to_bits_spec();
    assert((w & 0xffff) == v_voltage && ((w >> 16) & 0xffff) == v_current) by (bit_vector)
        requires
            v_voltage < 0x10000,
            v_current < 0x10000,
            w == v_voltage | (v_current << 16),
    ;
    assert(RegVI::from_bits_spec(w) == r);
}

/// Encoding a decoded `RegVI` payload word reproduces it bit for bit,
/// reserved ranges included.
pub proof fn lemma_reg_vi_encode_decode(x: u32)
    ensures
        RegVI::from_bits_spec(x).to_bits_spec() == x,
{
    let r = RegVI::from_bits_spec(x);
    let v_voltage: u32 = x & 0xffff;
    let v_current: u32 = (x >> 16) & 0xffff;
    lemma_mask_bound(x, 0xffff);
    lemma_mask_bound(x >> 16, 0xffff);
    assert(r.voltage as u32 == v_voltage);
    assert(r.current as u32 == v_current);
    assert(v_voltage | (v_current << 16) == x) by (bit_vector)
        requires
            v_voltage == x & 0xffff,
            v_current == (x >> 16) & 0xffff,
    ;
    assert(r.to_bits_spec() == x);
}

/// Re-encoding a decoded 4-byte `RegVI` payload reproduces the payload,
/// bits outside the named fields included.
pub proof fn lemma_reg_vi_payload_round_trip(b: Seq<u8>)
    requires
        b.len() == 4,
    ensures
        le_of_word(RegVI::from_bits_spec(word_of_le(b)).to_bits_spec()) == b,
{
    lemma_reg_vi_encode_decode(word_of_le(b));
    lemma_le_of_word_of_le(b);
}

/// Active/reactive power pair, used for averaged and instantaneous reads.
#[derive(Clone, Copy, Debug, PartialEq, Eq, Structural)]
pub struct RegPower {
    /// Bit 0..15: 16-bit field `power`.
    pub power: u16,
    /// Bit 16..31: 16-bit field `pimag`.
    pub pimag: u16,
}

impl RegPower {
    /// Every field fits its declared bit width.
    pub open spec fn wf(self) -> bool {
        true
    }

    /// Pack the fields into the 32-bit register word.
    pub open spec fn to_bits_spec(self) -> u32 {
        (self.power as u32) | ((self.pimag as u32) << 16)
    }

    /// Unpack a 32-bit register word into its fields.
    pub open spec fn from_bits_spec(x: u32) -> RegPower {
        RegPower {
            power: (x & 0xffff) as u16,
            pimag: ((x >> 16) & 0xffff) as u16,
        }
    }

    /// An all-zero field set: the starting point of an encode.
    pub fn new() -> (r: RegPower)
        ensures
            r.power == 0,
            r.pimag == 0,
            r.wf(),
    {
        RegPower {
            power: 0,
            pimag: 0,
        }
    }

    /// Unpack a 32-bit register word into its fields.
    pub fn from_bits(x: u32) -> (r: RegPower)
        ensures
            r == RegPower::from_bits_spec(x),
            r.wf(),
    {
        RegPower {
            power: (x & 0xffff) as u16,
            pimag: ((x >> 16) & 0xffff) as u16,
        }
    }

    /// Pack the fields into the 32-bit register word.
    pub fn to_bits(self) -> (x: u32)
        requires
            self.wf(),
        ensures
            x == self.to_bits_spec(),
    {
        (self.power as u32) | ((self.pimag as u32) << 16)
    }

    /// Decode a 4-byte payload in little-endian wire order.
    pub fn from_bytes(bytes: [u8; 4]) -> (r: RegPower)
        ensures
            r == RegPower::from_bits_spec(word_of_le(bytes@)),
            r.wf(),
    {
        RegPower::from_bits(bytes_to_word(bytes))
    }

    /// Encode the fields into a 4-byte payload in little-endian wire order.
    pub fn into_bytes(self) -> (bytes: [u8; 4])
        requires
            self.wf(),
        ensures
            bytes@ == le_of_word(self.to_bits_spec()),
    {
        word_to_bytes(self.to_bits())
    }
}

/// Decoding an encoded `RegPower` field set returns the field set unchanged.
pub proof fn lemma_reg_power_decode_encode(r: RegPower)
    requires
        r.wf(),
    ensures
        RegPower::from_bits_spec(r.to_bits_spec()) == r,
{
    let v_power: u32 = r.power as u32;
    let v_pimag: u32 = r.pimag as u32;
    let w: u32 = r.to_bits_spec();
    assert((w & 0xffff) == v_power && ((w >> 16) & 0xffff) == v_pimag) by (bit_vector)
        requires
            v_power < 0x10000,
            v_pimag < 0x10000,
            w == v_power | (v_pimag << 16),
    ;
    assert(RegPower::from_bits_spec(w) == r);
}

/// Encoding a decoded `RegPower` payload word reproduces it bit for bit,
/// reserved ranges included.
pub proof fn lemma_reg_power_encode_decode(x: u32)
    ensures
        RegPower::from_bits_spec(x).to_bits_spec() == x,
{
    let r = RegPower::from_bits_spec(x);
    let v_power: u32 = x & 0xffff;
    let v_pimag: u32 = (x >> 16) & 0xffff;
    lemma_mask_bound(x, 0xffff);
    lemma_mask_bound(x >> 16, 0xffff);
    assert(r.power as u32 == v_power);
    assert(r.pimag as u32 == v_pimag);
    assert(v_power | (v_pimag << 16) == x) by (bit_vector)
        requires
            v_power == x & 0xffff,
            v_pimag == (x >> 16) & 0xffff,
    ;
    assert(r.to_bits_spec() == x);
}

/// Re-encoding a decoded 4-byte `RegPower` payload reproduces the payload,
/// bits outside the named fields included.
pub proof fn lemma_reg_power_payload_round_trip(b: Seq<u8>)
    requires
        b.len() == 4,
    ensures
        le_of_word(RegPower::from_bits_spec(word_of_le(b)).to_bits_spec()) == b,
{
    lemma_reg_power_encode_decode(word_of_le(b));
    lemma_le_of_word_of_le(b);
}

/// Apparent power, power factor and their sign flags.
#[derive(Clone, Copy, Debug, PartialEq, Eq, Structural)]
pub struct RegApparentPower {
    /// Bit 0..15: 16-bit field `papparent`.
    pub papparent: u16,
    /// Bit 16..26: 11-bit field `pfactor`.
    pub pfactor: u16,
    /// Bit 27: 1-bit field `poasngle`.
    pub poasngle: u8,
    /// Bit 28: 1-bit field `pospf`.
    pub pospf: u8,
    /// Bit 29..31: 3-bit field `reserved`.
    pub reserved: u8,
}

impl RegApparentPower {
    /// Every field fits its declared bit width.
    pub open spec fn wf(self) -> bool {
        self.pfactor < 0x800 && self.poasngle < 0x2 && self.pospf < 0x2 && self.reserved < 0x8
    }

    /// Pack the fields into the 32-bit register word.
    pub open spec fn to_bits_spec(self) -> u32 {
        (self.papparent as u32) | ((self.pfactor as u32) << 16) | ((self.poasngle as u32) << 27) | ((self.pospf as u32) << 28) | ((self.reserved as u32) << 29)
    }

    /// Unpack a 32-bit register word into its fields.
    pub open spec fn from_bits_spec(x: u32) -> RegApparentPower {
        RegApparentPower {
            papparent: (x & 0xffff) as u16,
            pfactor: ((x >> 16) & 0x7ff) as u16,
            poasngle: ((x >> 27) & 0x1) as u8,
            pospf: ((x >> 28) & 0x1) as u8,
            reserved: ((x >> 29) & 0x7) as u8,
        }
    }

    /// An all-zero field set: the starting point of an encode.
    pub fn new() -> (r: RegApparentPower)
        ensures
            r.papparent == 0,
            r.pfactor == 0,
            r.poasngle == 0,
            r.pospf == 0,
            r.reserved == 0,
            r.wf(),
    {
        RegApparentPower {
            papparent: 0,
            pfactor: 0,
            poasngle: 0,
            pospf: 0,
            reserved: 0,
        }
    }

    /// Unpack a 32-bit register word into its fields.
    pub fn from_bits(x: u32) -> (r: RegApparentPower)
        ensures
            r == RegApparentPower::from_bits_spec(x),
            r.wf(),
    {
        proof {
            lemma_mask_bound(x >> 16, 0x7ff);
            lemma_mask_bound(x >> 27, 0x1);
            lemma_mask_bound(x >> 28, 0x1);
            lemma_mask_bound(x >> 29, 0x7);
        }
        RegApparentPower {
            papparent: (x & 0xffff) as u16,
            pfactor: ((x >> 16) & 0x7ff) as u16,
            poasngle: ((x >> 27) & 0x1) as u8,
            pospf: ((x >> 28) & 0x1) as u8,
            reserved: ((x >> 29) & 0x7) as u8,
        }
    }

    /// Pack the fields into the 32-bit register word.
    pub fn to_bits(self) -> (x: u32)
        requires
            self.wf(),
        ensures
            x == self.to_bits_spec(),
    {
        (self.papparent as u32) | ((self.pfactor as u32) << 16) | ((self.poasngle as u32) << 27) | ((self.pospf as u32) << 28) | ((self.reserved as u32) << 29)
    }

    /// Decode a 4-byte payload in little-endian wire order.
    pub fn from_bytes(bytes: [u8; 4]) -> (r: RegApparentPower)
        ensures
            r == RegApparentPower::from_bits_spec(word_of_le(bytes@)),
            r.wf(),
    {
        RegApparentPower::from_bits(bytes_to_word(bytes))
    }

    /// Encode the fields into a 4-byte payload in little-endian wire order.
    pub fn into_bytes(self) -> (bytes: [u8; 4])
        requires
            self.wf(),
        ensures
            bytes@ == le_of_word(self.to_bits_spec()),
    {
        word_to_bytes(self.to_bits())
    }
}

/// Decoding an encoded `RegApparentPower` field set returns the field set unchanged.
pub proof fn lemma_reg_apparent_power_decode_encode(r: RegApparentPower)
    requires
        r.wf(),
    ensures
        RegApparentPower::from_bits_spec(r.to_bits_spec()) == r,
{
    let v_papparent: u32 = r.papparent as u32;
    let v_pfactor: u32 = r.pfactor as u32;
    let v_poasngle: u32 = r.poasngle as u32;
    let v_pospf: u32 = r.pospf as u32;
    let v_reserved: u32 = r.reserved as u32;
    let w: u32 = r.to_bits_spec();
    assert((w & 0xffff) == v_papparent && ((w >> 16) & 0x7ff) == v_pfactor && ((w >> 27) & 0x1) == v_poasngle && ((w >> 28) & 0x1) == v_pospf && ((w >> 29) & 0x7) == v_reserved) by (bit_vector)
        requires
            v_papparent < 0x10000,
            v_pfactor < 0x800,
            v_poasngle < 0x2,
            v_pospf < 0x2,
            v_reserved < 0x8,
            w == v_papparent | (v_pfactor << 16) | (v_poasngle << 27) | (v_pospf << 28) | (v_reserved << 29),
    ;
    assert(RegApparentPower::from_bits_spec(w) == r);
}

/// Encoding a decoded `RegApparentPower` payload word reproduces it bit for bit,
/// reserved ranges included.
pub proof fn lemma_reg_apparent_power_encode_decode(x: u32)
    ensures
        RegApparentPower::from_bits_spec(x).to_bits_spec() == x,
{
    let r = RegApparentPower::from_bits_spec(x);
    let v_papparent: u32 = x & 0xffff;
    let v_pfactor: u32 = (x >> 16) & 0x7ff;
    let v_poasngle: u32 = (x >> 27) & 0x1;
    let v_pospf: u32 = (x >> 28) & 0x1;
    let v_reserved: u32 = (x >> 29) & 0x7;
    lemma_mask_bound(x, 0xffff);
    lemma_mask_bound(x >> 16, 0x7ff);
    lemma_mask_bound(x >> 27, 0x1);
    lemma_mask_bound(x >> 28, 0x1);
    lemma_mask_bound(x >> 29, 0x7);
    assert(r.papparent as u32 == v_papparent);
    assert(r.pfactor as u32 == v_pfactor);
    assert(r.poasngle as u32 == v_poasngle);
    assert(r.pospf as u32 == v_pospf);
    assert(r.reserved as u32 == v_reserved);
    assert(v_papparent | (v_pfactor << 16) | (v_poasngle << 27) | (v_pospf << 28) | (v_reserved << 29) == x) by (bit_vector)
        requires
            v_papparent == x & 0xffff,
            v_pfactor == (x >> 16) & 0x7ff,
            v_poasngle == (x >> 27) & 0x1,
            v_pospf == (x >> 28) & 0x1,
            v_reserved == (x >> 29) & 0x7,
    ;
    assert(r.to_bits_spec() == x);
}

/// Re-encoding a decoded 4-byte `RegApparentPower` payload reproduces the payload,
/// bits outside the named fields included.
pub proof fn lemma_reg_apparent_power_payload_round_trip(b: Seq<u8>)
    requires
        b.len() == 4,
    ensures
        le_of_word(RegApparentPower::from_bits_spec(word_of_le(b)).to_bits_spec()) == b,
{
    lemma_reg_apparent_power_encode_decode(word_of_le(b));
    lemma_le_of_word_of_le(b);
}

/// Number of samples in the averaging window.
#[derive(Clone, Copy, Debug, PartialEq, Eq, Structural)]
pub struct RegNumSamples {
    /// Bit 0..9: 10-bit field `numptsout`.
    pub numptsout: u16,
    /// Bit 10..31: 22-bit field `reserved`.
    pub reserved: u32,
}

impl RegNumSamples {
    /// Every field fits its declared bit width.
    pub open spec fn wf(self) -> bool {
        self.numptsout < 0x400 && self.reserved < 0x400000
    }

    /// Pack the fields into the 32-bit register word.
    pub open spec fn to_bits_spec(self) -> u32 {
        (self.numptsout as u32) | ((self.reserved as u32) << 10)
    }

    /// Unpack a 32-bit register word into its fields.
    pub open spec fn from_bits_spec(x: u32) -> RegNumSamples {
        RegNumSamples {
            numptsout: (x & 0x3ff) as u16,
            reserved: ((x >> 10) & 0x3fffff) as u32,
        }
    }

    /// An all-zero field set: the starting point of an encode.
    pub fn new() -> (r: RegNumSamples)
        ensures
            r.numptsout == 0,
            r.reserved == 0,
            r.wf(),
    {
        RegNumSamples {
            numptsout: 0,
            reserved: 0,
        }
    }

    /// Unpack a 32-bit register word into its fields.
    pub fn from_bits(x: u32) -> (r: RegNumSamples)
        ensures
            r == RegNumSamples::from_bits_spec(x),
            r.wf(),
    {
        proof {
            lemma_mask_bound(x, 0x3ff);
            lemma_mask_bound(x >> 10, 0x3fffff);
        }
        RegNumSamples {
            numptsout: (x & 0x3ff) as u16,
            reserved: ((x >> 10) & 0x3fffff) as u32,
        }
    }

    /// Pack the fields into the 32-bit register word.
    pub fn to_bits(self) -> (x: u32)
        requires
            self.wf(),
        ensures
            x == self.to_bits_spec(),
    {
        (self.numptsout as u32) | ((self.reserved as u32) << 10)
    }

    /// Decode a 4-byte payload in little-endian wire order.
    pub fn from_bytes(bytes: [u8; 4]) -> (r: RegNumSamples)
        ensures
            r == RegNumSamples::from_bits_spec(word_of_le(bytes@)),
            r.wf(),
    {
        RegNumSamples::from_bits(bytes_to_word(bytes))
    }

    /// Encode the fields into a 4-byte payload in little-endian wire order.
    pub fn into_bytes(self) -> (bytes: [u8; 4])
        requires
            self.wf(),
        ensures
            bytes@ == le_of_word(self.to_bits_spec()),
    {
        word_to_bytes(self.to_bits())
    }
}

/// Decoding an encoded `RegNumSamples` field set returns the field set unchanged.
pub proof fn lemma_reg_num_samples_decode_encode(r: RegNumSamples)
    requires
        r.wf(),
    ensures
        RegNumSamples::from_bits_spec(r.to_bits_spec()) == r,
{
    let v_numptsout: u32 = r.numptsout as u32;
    let v_reserved: u32 = r.reserved as u32;
    let w: u32 = r.to_bits_spec();
    assert((w & 0x3ff) == v_numptsout && ((w >> 10) & 0x3fffff) == v_reserved) by (bit_vector)
        requires
            v_numptsout < 0x400,
            v_reserved < 0x400000,
            w == v_numptsout | (v_reserved << 10),
    ;
    assert(RegNumSamples::from_bits_spec(w) == r);
}

/// Encoding a decoded `RegNumSamples` payload word reproduces it bit for bit,
/// reserved ranges included.
pub proof fn lemma_reg_num_samples_encode_decode(x: u32)
    ensures
        RegNumSamples::from_bits_spec(x).to_bits_spec() == x,
{
    let r = RegNumSamples::from_bits_spec(x);
    let v_numptsout: u32 = x & 0x3ff;
    let v_reserved: u32 = (x >> 10) & 0x3fffff;
    lemma_mask_bound(x, 0x3ff);
    lemma_mask_bound(x >> 10, 0x3fffff);
    assert(r.numptsout as u32 == v_numptsout);
    assert(r.reserved as u32 == v_reserved);
    assert(v_numptsout | (v_reserved << 10) == x) by (bit_vector)
        requires
            v_numptsout == x & 0x3ff,
            v_reserved == (x >> 10) & 0x3fffff,
    ;
    assert(r.to_bits_spec() == x);
}

/// Re-encoding a decoded 4-byte `RegNumSamples` payload reproduces the payload,
/// bits outside the named fields included.
pub proof fn lemma_reg_num_samples_payload_round_trip(b: Seq<u8>)
    requires
        b.len() == 4,
    ensures
        le_of_word(RegNumSamples::from_bits_spec(word_of_le(b)).to_bits_spec()) == b,
{
    lemma_reg_num_samples_encode_decode(word_of_le(b));
    lemma_le_of_word_of_le(b);
}

/// Status flags, including the sticky fault latch.
#[derive(Clone, Copy, Debug, PartialEq, Eq, Structural)]
pub struct RegStatus {
    /// Bit 0: flag `zerocrossout`.
    pub zerocrossout: bool,
    /// Bit 1: flag `faultout`.
    pub faultout: bool,
    /// Bit 2: flag `faultlatched`.
    pub faultlatched: bool,
    /// Bit 3: flag `overvoltage`.
    pub overvoltage: bool,
    /// Bit 4: flag `undervoltage`.
    pub undervoltage: bool,
    /// Bit 5..31: 27-bit field `reserved`.
    pub reserved: u32,
}

impl RegStatus {
    /// Every field fits its declared bit width.
    pub open spec fn wf(self) -> bool {
        self.reserved < 0x8000000
    }

    /// Pack the fields into the 32-bit register word.
    pub open spec fn to_bits_spec(self) -> u32 {
        (if self.zerocrossout { 1u32 } else { 0u32 }) | ((if self.faultout { 1u32 } else { 0u32 }) << 1) | ((if self.faultlatched { 1u32 } else { 0u32 }) << 2) | ((if self.overvoltage { 1u32 } else { 0u32 }) << 3) | ((if self.undervoltage { 1u32 } else { 0u32 }) << 4) | ((self.reserved as u32) << 5)
    }

    /// Unpack a 32-bit register word into its fields.
    pub open spec fn from_bits_spec(x: u32) -> RegStatus {
        RegStatus {
            zerocrossout: x & 1 == 1,
            faultout: (x >> 1) & 1 == 1,
            faultlatched: (x >> 2) & 1 == 1,
            overvoltage: (x >> 3) & 1 == 1,
            undervoltage: (x >> 4) & 1 == 1,
            reserved: ((x >> 5) & 0x7ffffff) as u32,
        }
    }

    /// An all-zero field set: the starting point of an encode.
    pub fn new() -> (r: RegStatus)
        ensures
            r.zerocrossout == false,
            r.faultout == false,
            r.faultlatched == false,
            r.overvoltage == false,
            r.undervoltage == false,
            r.reserved == 0,
            r.wf(),
    {
        RegStatus {
            zerocrossout: false,
            faultout: false,
            faultlatched: false,
            overvoltage: false,
            undervoltage: false,
            reserved: 0,
        }
    }

    /// Unpack a 32-bit register word into its fields.
    pub fn from_bits(x: u32) -> (r: RegStatus)
        ensures
            r == RegStatus::from_bits_spec(x),
            r.wf(),
    {
        proof {
            lemma_mask_bound(x >> 5, 0x7ffffff);
        }
        RegStatus {
            zerocrossout: x & 1 == 1,
            faultout: (x >> 1) & 1 == 1,
            faultlatched: (x >> 2) & 1 == 1,
            overvoltage: (x >> 3) & 1 == 1,
            undervoltage: (x >> 4) & 1 == 1,
            reserved: ((x >> 5) & 0x7ffffff) as u32,
        }
    }

    /// Pack the fields into the 32-bit register word.
    pub fn to_bits(self) -> (x: u32)
        requires
            self.wf(),
        ensures
            x == self.to_bits_spec(),
    {
        (if self.zerocrossout { 1u32 } else { 0u32 }) | ((if self.faultout { 1u32 } else { 0u32 }) << 1) | ((if self.faultlatched { 1u32 } else { 0u32 }) << 2) | ((if self.overvoltage { 1u32 } else { 0u32 }) << 3) | ((if self.undervoltage { 1u32 } else { 0u32 }) << 4) | ((self.reserved as u32) << 5)
    }

    /// Decode a 4-byte payload in little-endian wire order.
    pub fn from_bytes(bytes: [u8; 4]) -> (r: RegStatus)
        ensures
            r == RegStatus::from_bits_spec(word_of_le(bytes@)),
            r.wf(),
    {
        RegStatus::from_bits(bytes_to_word(bytes))
    }

    /// Encode the fields into a 4-byte payload in little-endian wire order.
    pub fn into_bytes(self) -> (bytes: [u8; 4])
        requires
            self.wf(),
        ensures
            bytes@ == le_of_word(self.to_bits_spec()),
    {
        word_to_bytes(self.to_bits())
    }
}

/// Decoding an encoded `RegStatus` field set returns the field set unchanged.
pub proof fn lemma_reg_status_decode_encode(r: RegStatus)
    requires
        r.wf(),
    ensures
        RegStatus::from_bits_spec(r.to_bits_spec()) == r,
{
    let v_zerocrossout: u32 = if r.zerocrossout { 1u32 } else { 0u32 };
    let v_faultout: u32 = if r.faultout { 1u32 } else { 0u32 };
    let v_faultlatched: u32 = if r.faultlatched { 1u32 } else { 0u32 };
    let v_overvoltage: u32 = if r.overvoltage { 1u32 } else { 0u32 };
    let v_undervoltage: u32 = if r.undervoltage { 1u32 } else { 0u32 };
    let v_reserved: u32 = r.reserved as u32;
    let w: u32 = r.to_bits_spec();
    assert((w & 0x1) == v_zerocrossout && ((w >> 1) & 0x1) == v_faultout && ((w >> 2) & 0x1) == v_faultlatched && ((w >> 3) & 0x1) == v_overvoltage && ((w >> 4) & 0x1) == v_undervoltage && ((w >> 5) & 0x7ffffff) == v_reserved) by (bit_vector)
        requires
            v_zerocrossout < 2,
            v_faultout < 2,
            v_faultlatched < 2,
            v_overvoltage < 2,
            v_undervoltage < 2,
            v_reserved < 0x8000000,
            w == v_zerocrossout | (v_faultout << 1) | (v_faultlatched << 2) | (v_overvoltage << 3) | (v_undervoltage << 4) | (v_reserved << 5),
    ;
    assert((w & 1 == 1) == r.zerocrossout);
    assert(((w >> 1) & 1 == 1) == r.faultout);
    assert(((w >> 2) & 1 == 1) == r.faultlatched);
    assert(((w >> 3) & 1 == 1) == r.overvoltage);
    assert(((w >> 4) & 1 == 1) == r.undervoltage);
    assert(RegStatus::from_bits_spec(w) == r);
}

/// Encoding a decoded `RegStatus` payload word reproduces it bit for bit,
/// reserved ranges included.
pub proof fn lemma_reg_status_encode_decode(x: u32)
    ensures
        RegStatus::from_bits_spec(x).to_bits_spec() == x,
{
    let r = RegStatus::from_bits_spec(x);
    let v_zerocrossout: u32 = x & 0x1;
    let v_faultout: u32 = (x >> 1) & 0x1;
    let v_faultlatched: u32 = (x >> 2) & 0x1;
    let v_overvoltage: u32 = (x >> 3) & 0x1;
    let v_undervoltage: u32 = (x >> 4) & 0x1;
    let v_reserved: u32 = (x >> 5) & 0x7ffffff;
    lemma_mask_bound(x, 0x1);
    lemma_mask_bound(x >> 1, 0x1);
    lemma_mask_bound(x >> 2, 0x1);
    lemma_mask_bound(x >> 3, 0x1);
    lemma_mask_bound(x >> 4, 0x1);
    lemma_mask_bound(x >> 5, 0x7ffffff);
    assert((if r.zerocrossout { 1u32 } else { 0u32 }) == v_zerocrossout);
    assert((if r.faultout { 1u32 } else { 0u32 }) == v_faultout);
    assert((if r.faultlatched { 1u32 } else { 0u32 }) == v_faultlatched);
    assert((if r.overvoltage { 1u32 } else { 0u32 }) == v_overvoltage);
    assert((if r.undervoltage { 1u32 } else { 0u32 }) == v_undervoltage);
    assert(r.reserved as u32 == v_reserved);
    assert(v_zerocrossout | (v_faultout << 1) | (v_faultlatched << 2) | (v_overvoltage << 3) | (v_undervoltage << 4) | (v_reserved << 5) == x) by (bit_vector)
        requires
            v_zerocrossout == x & 0x1,
            v_faultout == (x >> 1) & 0x1,
            v_faultlatched == (x >> 2) & 0x1,
            v_overvoltage == (x >> 3) & 0x1,
            v_undervoltage == (x >> 4) & 0x1,
            v_reserved == (x >> 5) & 0x7ffffff,
    ;
    assert(r.to_bits_spec() == x);
}

/// Re-encoding a decoded 4-byte `RegStatus` payload reproduces the payload,
/// bits outside the named fields included.
pub proof fn lemma_reg_status_payload_round_trip(b: Seq<u8>)
    requires
        b.len() == 4,
    ensures
        le_of_word(RegStatus::from_bits_spec(word_of_le(b)).to_bits_spec()) == b,
{
    lemma_reg_status_encode_decode(word_of_le(b));
    lemma_le_of_word_of_le(b);
}

/// Decoding an encoded `Reg0b` 4-byte payload returns the field set
/// unchanged, for fields within their declared widths.
pub proof fn lemma_reg0b_bytes_round_trip(r: Reg0b)
    requires
        r.wf(),
    ensures
        Reg0b::from_bits_spec(word_of_le(le_of_word(r.to_bits_spec()))) == r,
{
    lemma_word_of_le_of_word(r.to_bits_spec());
    lemma_reg0b_decode_encode(r);
}

/// Decoding an encoded `Reg0c` 4-byte payload returns the field set
/// unchanged, for fields within their declared widths.
pub proof fn lemma_reg0c_bytes_round_trip(r: Reg0c)
    requires
        r.wf(),
    ensures
        Reg0c::from_bits_spec(word_of_le(le_of_word(r.to_bits_spec()))) == r,
{
    lemma_word_of_le_of_word(r.to_bits_spec());
    lemma_reg0c_decode_encode(r);
}

/// Decoding an encoded `Reg0d` 4-byte payload returns the field set
/// unchanged, for fields within their declared widths.
pub proof fn lemma_reg0d_bytes_round_trip(r: Reg0d)
    requires
        r.wf(),
    ensures
        Reg0d::from_bits_spec(word_of_le(le_of_word(r.to_bits_spec()))) == r,
{
    lemma_word_of_le_of_word(r.to_bits_spec());
    lemma_reg0d_decode_encode(r);
}

/// Decoding an encoded `Reg0e` 4-byte payload returns the field set
/// unchanged, for fields within their declared widths.
pub proof fn lemma_reg0e_bytes_round_trip(r: Reg0e)
    requires
        r.wf(),
    ensures
        Reg0e::from_bits_spec(word_of_le(le_of_word(r.to_bits_spec()))) == r,
{
    lemma_word_of_le_of_word(r.to_bits_spec());
    lemma_reg0e_decode_encode(r);
}

/// Decoding an encoded `Reg0f` 4-byte payload returns the field set
/// unchanged, for fields within their declared widths.
pub proof fn lemma_reg0f_bytes_round_trip(r: Reg0f)
    requires
        r.wf(),
    ensures
        Reg0f::from_bits_spec(word_of_le(le_of_word(r.to_bits_spec()))) == r,
{
    lemma_word_of_le_of_word(r.to_bits_spec());
    lemma_reg0f_decode_encode(r);
}

/// Decoding an encoded `RegVI` 4-byte payload returns the field set
/// unchanged, for fields within their declared widths.
pub proof fn lemma_reg_vi_bytes_round_trip(r: RegVI)
    requires
        r.wf(),
    ensures
        RegVI::from_bits_spec(word_of_le(le_of_word(r.to_bits_spec()))) == r,
{
    lemma_word_of_le_of_word(r.to_bits_spec());
    lemma_reg_vi_decode_encode(r);
}

/// Decoding an encoded `RegPower` 4-byte payload returns the field set
/// unchanged, for fields within their declared widths.
pub proof fn lemma_reg_power_bytes_round_trip(r: RegPower)
    requires
        r.wf(),
    ensures
        RegPower::from_bits_spec(word_of_le(le_of_word(r.to_bits_spec()))) == r,
{
    lemma_word_of_le_of_word(r.to_bits_spec());
    lemma_reg_power_decode_encode(r);
}

/// Decoding an encoded `RegApparentPower` 4-byte payload returns the field set
/// unchanged, for fields within their declared widths.
pub proof fn lemma_reg_apparent_power_bytes_round_trip(r: RegApparentPower)
    requires
        r.wf(),
    ensures
        RegApparentPower::from_bits_spec(word_of_le(le_of_word(r.to_bits_spec()))) == r,
{
    lemma_word_of_le_of_word(r.to_bits_spec());
    lemma_reg_apparent_power_decode_encode(r);
}

/// Decoding an encoded `RegNumSamples` 4-byte payload returns the field set
/// unchanged, for fields within their declared widths.
pub proof fn lemma_reg_num_samples_bytes_round_trip(r: RegNumSamples)
    requires
        r.wf(),
    ensures
        RegNumSamples::from_bits_spec(word_of_le(le_of_word(r.to_bits_spec()))) == r,
{
    lemma_word_of_le_of_word(r.to_bits_spec());
    lemma_reg_num_samples_decode_encode(r);
}

/// Decoding an encoded `RegStatus` 4-byte payload returns the field set
/// unchanged, for fields within their declared widths.
pub proof fn lemma_reg_status_bytes_round_trip(r: RegStatus)
    requires
        r.wf(),
    ensures
        RegStatus::from_bits_spec(word_of_le(le_of_word(r.to_bits_spec()))) == r,
{
    lemma_word_of_le_of_word(r.to_bits_spec());
    lemma_reg_status_decode_encode(r);
}

} // verus!
