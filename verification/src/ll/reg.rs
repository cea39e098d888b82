//! The register map: the address of every register, and one type per
//! register that names the fields of its bit pattern.
//!
//! A register value is built from the raw pattern read on the bus and gives
//! the raw pattern back unchanged. Fields narrower than a byte are
//! handed over as the narrow integers of [`crate::uint`], so a field can never
//! be given a value wider than itself.

use crate::uint::{U1, U2, U24, U3, U4, U5};
use vstd::prelude::*;

verus! {

/// The address of each register of the sensor.
#[derive(Clone, Copy, Debug, PartialEq, Eq, Structural)]
pub enum RegAddress {
    WIA1,
    WIA2,
    RSV1,
    RSV2,
    ST,
    ST1,
    HXL,
    HXM,
    HXH,
    HYL,
    HYM,
    HYH,
    HZL,
    HZM,
    HZH,
    TMPS,
    ST2,
    SXL,
    SXH,
    SYL,
    SYH,
    SZL,
    SZH,
    CNTL1,
    CNTL2,
    CNTL3,
    CNTL4,
    I2CDIS,
    TS,
}

impl RegAddress {
    /// The address as a number.
    pub open spec fn spec_addr(self) -> u8 {
        match self {
            RegAddress::WIA1 => 0x00,
            RegAddress::WIA2 => 0x01,
            RegAddress::RSV1 => 0x02,
            RegAddress::RSV2 => 0x03,
            RegAddress::ST => 0x0F,
            RegAddress::ST1 => 0x10,
            RegAddress::HXL => 0x11,
            RegAddress::HXM => 0x12,
            RegAddress::HXH => 0x13,
            RegAddress::HYL => 0x14,
            RegAddress::HYM => 0x15,
            RegAddress::HYH => 0x16,
            RegAddress::HZL => 0x17,
            RegAddress::HZM => 0x18,
            RegAddress::HZH => 0x19,
            RegAddress::TMPS => 0x1A,
            RegAddress::ST2 => 0x1B,
            RegAddress::SXL => 0x20,
            RegAddress::SXH => 0x21,
            RegAddress::SYL => 0x22,
            RegAddress::SYH => 0x23,
            RegAddress::SZL => 0x24,
            RegAddress::SZH => 0x25,
            RegAddress::CNTL1 => 0x30,
            RegAddress::CNTL2 => 0x31,
            RegAddress::CNTL3 => 0x32,
            RegAddress::CNTL4 => 0x33,
            RegAddress::I2CDIS => 0x36,
            RegAddress::TS => 0x37,
        }
    }

    /// The address as the byte that goes on the bus. It never has its top
    /// bit set: that bit is free to mark a read.
    #[verifier::when_used_as_spec(spec_addr)]
    pub fn addr(self) -> (r: u8)
        ensures
            r == self.spec_addr(),
            r < 0x80,
    {
        match self {
            RegAddress::WIA1 => 0x00,
            RegAddress::WIA2 => 0x01,
            RegAddress::RSV1 => 0x02,
            RegAddress::RSV2 => 0x03,
            RegAddress::ST => 0x0F,
            RegAddress::ST1 => 0x10,
            RegAddress::HXL => 0x11,
            RegAddress::HXM => 0x12,
            RegAddress::HXH => 0x13,
            RegAddress::HYL => 0x14,
            RegAddress::HYM => 0x15,
            RegAddress::HYH => 0x16,
            RegAddress::HZL => 0x17,
            RegAddress::HZM => 0x18,
            RegAddress::HZH => 0x19,
            RegAddress::TMPS => 0x1A,
            RegAddress::ST2 => 0x1B,
            RegAddress::SXL => 0x20,
            RegAddress::SXH => 0x21,
            RegAddress::SYL => 0x22,
            RegAddress::SYH => 0x23,
            RegAddress::SZL => 0x24,
            RegAddress::SZH => 0x25,
            RegAddress::CNTL1 => 0x30,
            RegAddress::CNTL2 => 0x31,
            RegAddress::CNTL3 => 0x32,
            RegAddress::CNTL4 => 0x33,
            RegAddress::I2CDIS => 0x36,
            RegAddress::TS => 0x37,
        }
    }
}

/// No two registers share an address.
pub proof fn lemma_addr_injective(a: RegAddress, b: RegAddress)
    ensures
        a.spec_addr() == b.spec_addr() <==> a == b,
{
}

/// The bytes of each register that is wider than a byte lie one behind the
/// other, the low byte at the lowest address.
pub proof fn lemma_word_layout()
    ensures
        RegAddress::HXM.spec_addr() == RegAddress::HXL.spec_addr() + 1,
        RegAddress::HXH.spec_addr() == RegAddress::HXL.spec_addr() + 2,
        RegAddress::HYM.spec_addr() == RegAddress::HYL.spec_addr() + 1,
        RegAddress::HYH.spec_addr() == RegAddress::HYL.spec_addr() + 2,
        RegAddress::HZM.spec_addr() == RegAddress::HZL.spec_addr() + 1,
        RegAddress::HZH.spec_addr() == RegAddress::HZL.spec_addr() + 2,
        RegAddress::SXH.spec_addr() == RegAddress::SXL.spec_addr() + 1,
        RegAddress::SYH.spec_addr() == RegAddress::SYL.spec_addr() + 1,
        RegAddress::SZH.spec_addr() == RegAddress::SZL.spec_addr() + 1,
{
}

/// The number that a 24-bit pattern stands for in two's complement: the
/// pattern itself below 2^23, and the pattern less 2^24 from there on.
pub open spec fn signed24(pattern: u32) -> int {
    if pattern < 0x80_0000 {
        pattern as int
    } else {
        pattern - 0x100_0000
    }
}

/// The 24-bit pattern that stands for the number `value` in two's complement:
/// its remainder modulo 2^24.
pub open spec fn pattern24(value: int) -> int {
    value % 0x100_0000
}

/// Sign extension loses nothing and adds nothing. For every 24-bit pattern,
/// the number that it stands for lies between -2^23 and 2^23, has the same
/// sign bit, and is encoded by that very pattern again; so extending the sign
/// of a pattern that was encoded from an extended number changes nothing.
pub proof fn lemma_sign_extension_round_trip(pattern: u32)
    requires
        pattern <= 0xFF_FFFF,
    ensures
        -0x80_0000 <= signed24(pattern) < 0x80_0000,
        signed24(pattern) < 0 <==> pattern >= 0x80_0000,
        pattern24(signed24(pattern)) == pattern,
        signed24(pattern24(signed24(pattern)) as u32) == signed24(pattern),
{
}

/// Extends a signed 24-bit number, held in an unsigned word, to 32 bits.
///
/// The result is the number that the pattern stands for in two's
/// complement; its low 24 bits are the pattern again.
pub fn sign_extend_u24(value: U24) -> (r: i32)
    ensures
        r == signed24(value@),
        -0x80_0000 <= r < 0x80_0000,
        (r as u32) & 0xFF_FFFF == value@,
{
    let value: u32 = value.value();
    let sign_bit: bool = (value & 0x80_0000) != 0;
    if sign_bit {
        let extended: u32 = value | 0xFF00_0000;
        let r: i32 = #[verifier::truncate]
        (extended as i32);
        assert(r == value - 0x100_0000 && value >= 0x80_0000 && (r as u32) & 0xFF_FFFF == value)
            by (bit_vector)
            requires
                value <= 0xFF_FFFF,
                (value & 0x80_0000) != 0,
                extended == value | 0xFF00_0000,
                r == extended as i32,
        ;
        r
    } else {
        let r: i32 = value as i32;
        assert(value < 0x80_0000 && (r as u32) & 0xFF_FFFF == value) by (bit_vector)
            requires
                value <= 0xFF_FFFF,
                (value & 0x80_0000) == 0,
                r == value as i32,
        ;
        r
    }
}

/// The quotient of `a` by a positive `b`, rounded toward zero.
pub open spec fn div_toward_zero(a: int, b: int) -> int {
    if a >= 0 {
        a / b
    } else {
        -((-a) / b)
    }
}

/// The number that a byte stands for in two's complement.
pub open spec fn signed8(raw: u8) -> int {
    if raw < 0x80 {
        raw as int
    } else {
        raw - 0x100
    }
}

/// The temperature that the raw byte `raw` stands for.
///
/// The sensor reports `30 - t / 1.7` degrees Celsius for the signed byte
/// `t`. In integers: `t` is scaled by 58823 and divided by 100, the result is
/// taken from 30000, and that is divided by 10; both divisions round toward
/// zero.
pub open spec fn spec_milli_celsius(raw: u8) -> int {
    div_toward_zero(30000 - div_toward_zero(signed8(raw) * 58823, 100), 10)
}

/// Company identification, at address 0x00. Reads as a fixed code that names
/// the manufacturer.
#[derive(Clone, Copy, Debug)]
pub struct WIA1 {
    raw_value: u8,
}

impl View for WIA1 {
    type V = u8;

    closed spec fn view(&self) -> u8 {
        self.raw_value
    }
}

impl WIA1 {
    /// The register that holds the byte `value`.
    pub closed spec fn spec_new_with_raw_value(value: u8) -> Self {
        WIA1 { raw_value: value }
    }

    /// The byte that the register holds.
    pub open spec fn spec_raw_value(&self) -> u8 {
        self@
    }

    /// The register as read from the bus. Every byte is accepted, also one
    /// with bits set that belong to no field.
    #[verifier::when_used_as_spec(spec_new_with_raw_value)]
    pub fn new_with_raw_value(value: u8) -> (r: Self)
        ensures
            r == Self::spec_new_with_raw_value(value),
            r@ == value,
    {
        WIA1 { raw_value: value }
    }

    /// The byte to put on the bus.
    #[verifier::when_used_as_spec(spec_raw_value)]
    pub fn raw_value(&self) -> (r: u8)
        ensures
            r == self@,
    {
        self.raw_value
    }

    /// A register built from a byte gives that byte back unchanged, and the
    /// byte is all there is to a register.
    pub proof fn lemma_raw_value_round_trip(value: u8, other: Self)
        ensures
            Self::new_with_raw_value(value).raw_value() == value,
            Self::new_with_raw_value(other.raw_value()) == other,
    {
    }

    /// The manufacturer's code.
    pub fn company_id(&self) -> (r: u8)
        ensures
            r == self@,
    {
        self.raw_value
    }
}

/// Device identification, at address 0x01. Reads as a fixed code that names
/// the device.
#[derive(Clone, Copy, Debug)]
pub struct WIA2 {
    raw_value: u8,
}

impl View for WIA2 {
    type V = u8;

    closed spec fn view(&self) -> u8 {
        self.raw_value
    }
}

impl WIA2 {
    /// The register that holds the byte `value`.
    pub closed spec fn spec_new_with_raw_value(value: u8) -> Self {
        WIA2 { raw_value: value }
    }

    /// The byte that the register holds.
    pub open spec fn spec_raw_value(&self) -> u8 {
        self@
    }

    /// The register as read from the bus. Every byte is accepted, also one
    /// with bits set that belong to no field.
    #[verifier::when_used_as_spec(spec_new_with_raw_value)]
    pub fn new_with_raw_value(value: u8) -> (r: Self)
        ensures
            r == Self::spec_new_with_raw_value(value),
            r@ == value,
    {
        WIA2 { raw_value: value }
    }

    /// The byte to put on the bus.
    #[verifier::when_used_as_spec(spec_raw_value)]
    pub fn raw_value(&self) -> (r: u8)
        ensures
            r == self@,
    {
        self.raw_value
    }

    /// A register built from a byte gives that byte back unchanged, and the
    /// byte is all there is to a register.
    pub proof fn lemma_raw_value_round_trip(value: u8, other: Self)
        ensures
            Self::new_with_raw_value(value).raw_value() == value,
            Self::new_with_raw_value(other.raw_value()) == other,
    {
    }

    /// The device's code.
    pub fn device_id(&self) -> (r: u8)
        ensures
            r == self@,
    {
        self.raw_value
    }
}

/// Reserved register 1, at address 0x02. Kept for the manufacturer's use.
#[derive(Clone, Copy, Debug)]
pub struct RSV1 {
    raw_value: u8,
}

impl View for RSV1 {
    type V = u8;

    closed spec fn view(&self) -> u8 {
        self.raw_value
    }
}

impl RSV1 {
    /// The register that holds the byte `value`.
    pub closed spec fn spec_new_with_raw_value(value: u8) -> Self {
        RSV1 { raw_value: value }
    }

    /// The byte that the register holds.
    pub open spec fn spec_raw_value(&self) -> u8 {
        self@
    }

    /// The register as read from the bus. Every byte is accepted, also one
    /// with bits set that belong to no field.
    #[verifier::when_used_as_spec(spec_new_with_raw_value)]
    pub fn new_with_raw_value(value: u8) -> (r: Self)
        ensures
            r == Self::spec_new_with_raw_value(value),
            r@ == value,
    {
        RSV1 { raw_value: value }
    }

    /// The byte to put on the bus.
    #[verifier::when_used_as_spec(spec_raw_value)]
    pub fn raw_value(&self) -> (r: u8)
        ensures
            r == self@,
    {
        self.raw_value
    }

    /// A register built from a byte gives that byte back unchanged, and the
    /// byte is all there is to a register.
    pub proof fn lemma_raw_value_round_trip(value: u8, other: Self)
        ensures
            Self::new_with_raw_value(value).raw_value() == value,
            Self::new_with_raw_value(other.raw_value()) == other,
    {
    }

    /// The reserved byte.
    pub fn reserved(&self) -> (r: u8)
        ensures
            r == self@,
    {
        self.raw_value
    }
}

/// Reserved register 2, at address 0x03. Kept for the manufacturer's use.
#[derive(Clone, Copy, Debug)]
pub struct RSV2 {
    raw_value: u8,
}

impl View for RSV2 {
    type V = u8;

    closed spec fn view(&self) -> u8 {
        self.raw_value
    }
}

impl RSV2 {
    /// The register that holds the byte `value`.
    pub closed spec fn spec_new_with_raw_value(value: u8) -> Self {
        RSV2 { raw_value: value }
    }

    /// The byte that the register holds.
    pub open spec fn spec_raw_value(&self) -> u8 {
        self@
    }

    /// The register as read from the bus. Every byte is accepted, also one
    /// with bits set that belong to no field.
    #[verifier::when_used_as_spec(spec_new_with_raw_value)]
    pub fn new_with_raw_value(value: u8) -> (r: Self)
        ensures
            r == Self::spec_new_with_raw_value(value),
            r@ == value,
    {
        RSV2 { raw_value: value }
    }

    /// The byte to put on the bus.
    #[verifier::when_used_as_spec(spec_raw_value)]
    pub fn raw_value(&self) -> (r: u8)
        ensures
            r == self@,
    {
        self.raw_value
    }

    /// A register built from a byte gives that byte back unchanged, and the
    /// byte is all there is to a register.
    pub proof fn lemma_raw_value_round_trip(value: u8, other: Self)
        ensures
            Self::new_with_raw_value(value).raw_value() == value,
            Self::new_with_raw_value(other.raw_value()) == other,
    {
    }

    /// The reserved byte.
    pub fn reserved(&self) -> (r: u8)
        ensures
            r == self@,
    {
        self.raw_value
    }
}

/// Status, for polling, at address 0x0F. Tells whether data is ready and
/// whether data was overrun, without releasing the data registers.
#[derive(Clone, Copy, Debug)]
pub struct ST {
    raw_value: u8,
}

impl View for ST {
    type V = u8;

    closed spec fn view(&self) -> u8 {
        self.raw_value
    }
}

impl ST {
    /// The register that holds the byte `value`.
    pub closed spec fn spec_new_with_raw_value(value: u8) -> Self {
        ST { raw_value: value }
    }

    /// The byte that the register holds.
    pub open spec fn spec_raw_value(&self) -> u8 {
        self@
    }

    /// The register as read from the bus. Every byte is accepted, also one
    /// with bits set that belong to no field.
    #[verifier::when_used_as_spec(spec_new_with_raw_value)]
    pub fn new_with_raw_value(value: u8) -> (r: Self)
        ensures
            r == Self::spec_new_with_raw_value(value),
            r@ == value,
    {
        ST { raw_value: value }
    }

    /// The byte to put on the bus.
    #[verifier::when_used_as_spec(spec_raw_value)]
    pub fn raw_value(&self) -> (r: u8)
        ensures
            r == self@,
    {
        self.raw_value
    }

    /// A register built from a byte gives that byte back unchanged, and the
    /// byte is all there is to a register.
    pub proof fn lemma_raw_value_round_trip(value: u8, other: Self)
        ensures
            Self::new_with_raw_value(value).raw_value() == value,
            Self::new_with_raw_value(other.raw_value()) == other,
    {
    }

    /// What `data_overrun` is in the byte `raw`: bit 1.
    pub open spec fn spec_data_overrun(raw: u8) -> bool {
        raw & 0x02 != 0
    }

    /// Whether a measurement was lost because the data was not read in time.
    pub fn data_overrun(&self) -> (r: bool)
        ensures
            r == Self::spec_data_overrun(self@),
    {
        self.raw_value & 0x02 != 0
    }

    /// What `data_ready` is in the byte `raw`: bit 0.
    pub open spec fn spec_data_ready(raw: u8) -> bool {
        raw & 0x01 != 0
    }

    /// Whether a measurement is ready to be read.
    pub fn data_ready(&self) -> (r: bool)
        ensures
            r == Self::spec_data_ready(self@),
    {
        self.raw_value & 0x01 != 0
    }
}

/// Status 1, at address 0x10. Opens a measurement frame: the frame number and
/// the data-ready flag.
#[derive(Clone, Copy, Debug)]
pub struct ST1 {
    raw_value: u8,
}

impl View for ST1 {
    type V = u8;

    closed spec fn view(&self) -> u8 {
        self.raw_value
    }
}

impl ST1 {
    /// The register that holds the byte `value`.
    pub closed spec fn spec_new_with_raw_value(value: u8) -> Self {
        ST1 { raw_value: value }
    }

    /// The byte that the register holds.
    pub open spec fn spec_raw_value(&self) -> u8 {
        self@
    }

    /// The register as read from the bus. Every byte is accepted, also one
    /// with bits set that belong to no field.
    #[verifier::when_used_as_spec(spec_new_with_raw_value)]
    pub fn new_with_raw_value(value: u8) -> (r: Self)
        ensures
            r == Self::spec_new_with_raw_value(value),
            r@ == value,
    {
        ST1 { raw_value: value }
    }

    /// The byte to put on the bus.
    #[verifier::when_used_as_spec(spec_raw_value)]
    pub fn raw_value(&self) -> (r: u8)
        ensures
            r == self@,
    {
        self.raw_value
    }

    /// A register built from a byte gives that byte back unchanged, and the
    /// byte is all there is to a register.
    pub proof fn lemma_raw_value_round_trip(value: u8, other: Self)
        ensures
            Self::new_with_raw_value(value).raw_value() == value,
            Self::new_with_raw_value(other.raw_value()) == other,
    {
    }

    /// What `frame_number` is in the byte `raw`: bits 1 to 4.
    pub open spec fn spec_frame_number(raw: u8) -> u8 {
        (raw >> 1) & 0x0F
    }

    /// The frame number that the sensor reports with the data.
    pub fn frame_number(&self) -> (r: U4)
        ensures
            r@ == Self::spec_frame_number(self@),
    {
        let raw: u8 = self.raw_value;
        let field: u8 = (raw >> 1) & 0x0F;
        assert(field <= 0x0F) by (bit_vector)
            requires
                field == (raw >> 1) & 0x0F,
        ;
        U4::new(field)
    }

    /// What `data_ready` is in the byte `raw`: bit 0.
    pub open spec fn spec_data_ready(raw: u8) -> bool {
        raw & 0x01 != 0
    }

    /// Whether a measurement is ready to be read.
    pub fn data_ready(&self) -> (r: bool)
        ensures
            r == Self::spec_data_ready(self@),
    {
        self.raw_value & 0x01 != 0
    }
}

/// X-axis magnetic data, at addresses 0x11 to 0x13, low byte first. A signed
/// number of 24 bits in two's complement.
#[derive(Clone, Copy, Debug)]
pub struct HX {
    raw_value: U24,
}

impl View for HX {
    type V = u32;

    closed spec fn view(&self) -> u32 {
        self.raw_value@
    }
}

impl HX {
    /// The register that holds the word `value`.
    pub closed spec fn spec_new_with_raw_value(value: U24) -> Self {
        HX { raw_value: value }
    }

    /// The word that the register holds.
    pub closed spec fn spec_raw_value(&self) -> U24 {
        self.raw_value
    }

    /// The register as assembled from the bytes read from the bus.
    #[verifier::when_used_as_spec(spec_new_with_raw_value)]
    pub fn new_with_raw_value(value: U24) -> (r: Self)
        ensures
            r == Self::spec_new_with_raw_value(value),
            r@ == value@,
    {
        HX { raw_value: value }
    }

    /// The word held.
    #[verifier::when_used_as_spec(spec_raw_value)]
    pub fn raw_value(&self) -> (r: U24)
        ensures
            r == self.spec_raw_value(),
            r@ == self@,
    {
        self.raw_value
    }

    /// A register built from a word gives that word back unchanged, and the
    /// word is all there is to a register.
    pub proof fn lemma_raw_value_round_trip(value: U24, other: Self)
        ensures
            Self::new_with_raw_value(value).raw_value() == value,
            Self::new_with_raw_value(value)@ == value@,
            Self::new_with_raw_value(other.raw_value()) == other,
    {
    }

    /// The whole word, which is the register's only field.
    pub fn hx(&self) -> (r: U24)
        ensures
            r@ == self@,
    {
        self.raw_value
    }

    /// The field strength along X in sensor counts, with its sign.
    pub fn magnitude(&self) -> (r: i32)
        ensures
            r == signed24(self@),
    {
        sign_extend_u24(self.raw_value)
    }
}

/// Y-axis magnetic data, at addresses 0x14 to 0x16, low byte first. A signed
/// number of 24 bits in two's complement.
#[derive(Clone, Copy, Debug)]
pub struct HY {
    raw_value: U24,
}

impl View for HY {
    type V = u32;

    closed spec fn view(&self) -> u32 {
        self.raw_value@
    }
}

impl HY {
    /// The register that holds the word `value`.
    pub closed spec fn spec_new_with_raw_value(value: U24) -> Self {
        HY { raw_value: value }
    }

    /// The word that the register holds.
    pub closed spec fn spec_raw_value(&self) -> U24 {
        self.raw_value
    }

    /// The register as assembled from the bytes read from the bus.
    #[verifier::when_used_as_spec(spec_new_with_raw_value)]
    pub fn new_with_raw_value(value: U24) -> (r: Self)
        ensures
            r == Self::spec_new_with_raw_value(value),
            r@ == value@,
    {
        HY { raw_value: value }
    }

    /// The word held.
    #[verifier::when_used_as_spec(spec_raw_value)]
    pub fn raw_value(&self) -> (r: U24)
        ensures
            r == self.spec_raw_value(),
            r@ == self@,
    {
        self.raw_value
    }

    /// A register built from a word gives that word back unchanged, and the
    /// word is all there is to a register.
    pub proof fn lemma_raw_value_round_trip(value: U24, other: Self)
        ensures
            Self::new_with_raw_value(value).raw_value() == value,
            Self::new_with_raw_value(value)@ == value@,
            Self::new_with_raw_value(other.raw_value()) == other,
    {
    }

    /// The whole word, which is the register's only field.
    pub fn hy(&self) -> (r: U24)
        ensures
            r@ == self@,
    {
        self.raw_value
    }

    /// The field strength along Y in sensor counts, with its sign.
    pub fn magnitude(&self) -> (r: i32)
        ensures
            r == signed24(self@),
    {
        sign_extend_u24(self.raw_value)
    }
}

/// Z-axis magnetic data, at addresses 0x17 to 0x19, low byte first. A signed
/// number of 24 bits in two's complement.
#[derive(Clone, Copy, Debug)]
pub struct HZ {
    raw_value: U24,
}

impl View for HZ {
    type V = u32;

    closed spec fn view(&self) -> u32 {
        self.raw_value@
    }
}

impl HZ {
    /// The register that holds the word `value`.
    pub closed spec fn spec_new_with_raw_value(value: U24) -> Self {
        HZ { raw_value: value }
    }

    /// The word that the register holds.
    pub closed spec fn spec_raw_value(&self) -> U24 {
        self.raw_value
    }

    /// The register as assembled from the bytes read from the bus.
    #[verifier::when_used_as_spec(spec_new_with_raw_value)]
    pub fn new_with_raw_value(value: U24) -> (r: Self)
        ensures
            r == Self::spec_new_with_raw_value(value),
            r@ == value@,
    {
        HZ { raw_value: value }
    }

    /// The word held.
    #[verifier::when_used_as_spec(spec_raw_value)]
    pub fn raw_value(&self) -> (r: U24)
        ensures
            r == self.spec_raw_value(),
            r@ == self@,
    {
        self.raw_value
    }

    /// A register built from a word gives that word back unchanged, and the
    /// word is all there is to a register.
    pub proof fn lemma_raw_value_round_trip(value: U24, other: Self)
        ensures
            Self::new_with_raw_value(value).raw_value() == value,
            Self::new_with_raw_value(value)@ == value@,
            Self::new_with_raw_value(other.raw_value()) == other,
    {
    }

    /// The whole word, which is the register's only field.
    pub fn hz(&self) -> (r: U24)
        ensures
            r@ == self@,
    {
        self.raw_value
    }

    /// The field strength along Z in sensor counts, with its sign.
    pub fn magnitude(&self) -> (r: i32)
        ensures
            r == signed24(self@),
    {
        sign_extend_u24(self.raw_value)
    }
}

/// Temperature data, at address 0x1A. The raw reading of the temperature
/// sensor, a signed byte.
#[derive(Clone, Copy, Debug)]
pub struct TMPS {
    raw_value: u8,
}

impl View for TMPS {
    type V = u8;

    closed spec fn view(&self) -> u8 {
        self.raw_value
    }
}

impl TMPS {
    /// The register that holds the byte `value`.
    pub closed spec fn spec_new_with_raw_value(value: u8) -> Self {
        TMPS { raw_value: value }
    }

    /// The byte that the register holds.
    pub open spec fn spec_raw_value(&self) -> u8 {
        self@
    }

    /// The register as read from the bus. Every byte is accepted, also one
    /// with bits set that belong to no field.
    #[verifier::when_used_as_spec(spec_new_with_raw_value)]
    pub fn new_with_raw_value(value: u8) -> (r: Self)
        ensures
            r == Self::spec_new_with_raw_value(value),
            r@ == value,
    {
        TMPS { raw_value: value }
    }

    /// The byte to put on the bus.
    #[verifier::when_used_as_spec(spec_raw_value)]
    pub fn raw_value(&self) -> (r: u8)
        ensures
            r == self@,
    {
        self.raw_value
    }

    /// A register built from a byte gives that byte back unchanged, and the
    /// byte is all there is to a register.
    pub proof fn lemma_raw_value_round_trip(value: u8, other: Self)
        ensures
            Self::new_with_raw_value(value).raw_value() == value,
            Self::new_with_raw_value(other.raw_value()) == other,
    {
    }

    /// The raw temperature byte.
    pub fn tmps(&self) -> (r: u8)
        ensures
            r == self@,
    {
        self.raw_value
    }
    /// The temperature, by the sensor's formula `30 - t / 1.7` degrees
    /// Celsius for the signed raw byte `t`, in exact integer arithmetic.
    pub fn milli_celsius(&self) -> (r: i32)
        ensures
            r == spec_milli_celsius(self@),
    {
        let raw: u8 = self.raw_value;
        let tmps: i32 = (#[verifier::truncate]
        (raw as i8)) as i32;
        assert(tmps == signed8(raw)) by (bit_vector)
            requires
                tmps == (raw as i8) as i32,
        ;
        let temp_10000: i32 = 30000 - (tmps * 58823 / 100);
        temp_10000 / 10
    }
}

/// Status 2, at address 0x1B. Closes a measurement frame: the flags for
/// invalid and overrun data.
#[derive(Clone, Copy, Debug)]
pub struct ST2 {
    raw_value: u8,
}

impl View for ST2 {
    type V = u8;

    closed spec fn view(&self) -> u8 {
        self.raw_value
    }
}

impl ST2 {
    /// The register that holds the byte `value`.
    pub closed spec fn spec_new_with_raw_value(value: u8) -> Self {
        ST2 { raw_value: value }
    }

    /// The byte that the register holds.
    pub open spec fn spec_raw_value(&self) -> u8 {
        self@
    }

    /// The register as read from the bus. Every byte is accepted, also one
    /// with bits set that belong to no field.
    #[verifier::when_used_as_spec(spec_new_with_raw_value)]
    pub fn new_with_raw_value(value: u8) -> (r: Self)
        ensures
            r == Self::spec_new_with_raw_value(value),
            r@ == value,
    {
        ST2 { raw_value: value }
    }

    /// The byte to put on the bus.
    #[verifier::when_used_as_spec(spec_raw_value)]
    pub fn raw_value(&self) -> (r: u8)
        ensures
            r == self@,
    {
        self.raw_value
    }

    /// A register built from a byte gives that byte back unchanged, and the
    /// byte is all there is to a register.
    pub proof fn lemma_raw_value_round_trip(value: u8, other: Self)
        ensures
            Self::new_with_raw_value(value).raw_value() == value,
            Self::new_with_raw_value(other.raw_value()) == other,
    {
    }

    /// What `invalid_data` is in the byte `raw`: bit 1.
    pub open spec fn spec_invalid_data(raw: u8) -> bool {
        raw & 0x02 != 0
    }

    /// Whether the frame read holds no valid measurement.
    pub fn invalid_data(&self) -> (r: bool)
        ensures
            r == Self::spec_invalid_data(self@),
    {
        self.raw_value & 0x02 != 0
    }

    /// What `data_overrun` is in the byte `raw`: bit 0.
    pub open spec fn spec_data_overrun(raw: u8) -> bool {
        raw & 0x01 != 0
    }

    /// Whether a measurement was lost because the data was not read in time.
    pub fn data_overrun(&self) -> (r: bool)
        ensures
            r == Self::spec_data_overrun(self@),
    {
        self.raw_value & 0x01 != 0
    }
}

/// X-axis self-test data, at addresses 0x20 and 0x21, low byte first.
#[derive(Clone, Copy, Debug)]
pub struct SX {
    raw_value: u16,
}

impl View for SX {
    type V = u16;

    closed spec fn view(&self) -> u16 {
        self.raw_value
    }
}

impl SX {
    /// The register that holds the word `value`.
    pub closed spec fn spec_new_with_raw_value(value: u16) -> Self {
        SX { raw_value: value }
    }

    /// The word that the register holds.
    pub closed spec fn spec_raw_value(&self) -> u16 {
        self.raw_value
    }

    /// The register as assembled from the bytes read from the bus.
    #[verifier::when_used_as_spec(spec_new_with_raw_value)]
    pub fn new_with_raw_value(value: u16) -> (r: Self)
        ensures
            r == Self::spec_new_with_raw_value(value),
            r@ == value,
    {
        SX { raw_value: value }
    }

    /// The word held.
    #[verifier::when_used_as_spec(spec_raw_value)]
    pub fn raw_value(&self) -> (r: u16)
        ensures
            r == self.spec_raw_value(),
            r == self@,
    {
        self.raw_value
    }

    /// A register built from a word gives that word back unchanged, and the
    /// word is all there is to a register.
    pub proof fn lemma_raw_value_round_trip(value: u16, other: Self)
        ensures
            Self::new_with_raw_value(value).raw_value() == value,
            Self::new_with_raw_value(value)@ == value,
            Self::new_with_raw_value(other.raw_value()) == other,
    {
    }

    /// The whole word, which is the register's only field.
    pub fn sx(&self) -> (r: u16)
        ensures
            r == self@,
    {
        self.raw_value
    }
}

/// Y-axis self-test data, at addresses 0x22 and 0x23, low byte first.
#[derive(Clone, Copy, Debug)]
pub struct SY {
    raw_value: u16,
}

impl View for SY {
    type V = u16;

    closed spec fn view(&self) -> u16 {
        self.raw_value
    }
}

impl SY {
    /// The register that holds the word `value`.
    pub closed spec fn spec_new_with_raw_value(value: u16) -> Self {
        SY { raw_value: value }
    }

    /// The word that the register holds.
    pub closed spec fn spec_raw_value(&self) -> u16 {
        self.raw_value
    }

    /// The register as assembled from the bytes read from the bus.
    #[verifier::when_used_as_spec(spec_new_with_raw_value)]
    pub fn new_with_raw_value(value: u16) -> (r: Self)
        ensures
            r == Self::spec_new_with_raw_value(value),
            r@ == value,
    {
        SY { raw_value: value }
    }

    /// The word held.
    #[verifier::when_used_as_spec(spec_raw_value)]
    pub fn raw_value(&self) -> (r: u16)
        ensures
            r == self.spec_raw_value(),
            r == self@,
    {
        self.raw_value
    }

    /// A register built from a word gives that word back unchanged, and the
    /// word is all there is to a register.
    pub proof fn lemma_raw_value_round_trip(value: u16, other: Self)
        ensures
            Self::new_with_raw_value(value).raw_value() == value,
            Self::new_with_raw_value(value)@ == value,
            Self::new_with_raw_value(other.raw_value()) == other,
    {
    }

    /// The whole word, which is the register's only field.
    pub fn sy(&self) -> (r: u16)
        ensures
            r == self@,
    {
        self.raw_value
    }
}

/// Z-axis self-test data, at addresses 0x24 and 0x25, low byte first.
#[derive(Clone, Copy, Debug)]
pub struct SZ {
    raw_value: u16,
}

impl View for SZ {
    type V = u16;

    closed spec fn view(&self) -> u16 {
        self.raw_value
    }
}

impl SZ {
    /// The register that holds the word `value`.
    pub closed spec fn spec_new_with_raw_value(value: u16) -> Self {
        SZ { raw_value: value }
    }

    /// The word that the register holds.
    pub closed spec fn spec_raw_value(&self) -> u16 {
        self.raw_value
    }

    /// The register as assembled from the bytes read from the bus.
    #[verifier::when_used_as_spec(spec_new_with_raw_value)]
    pub fn new_with_raw_value(value: u16) -> (r: Self)
        ensures
            r == Self::spec_new_with_raw_value(value),
            r@ == value,
    {
        SZ { raw_value: value }
    }

    /// The word held.
    #[verifier::when_used_as_spec(spec_raw_value)]
    pub fn raw_value(&self) -> (r: u16)
        ensures
            r == self.spec_raw_value(),
            r == self@,
    {
        self.raw_value
    }

    /// A register built from a word gives that word back unchanged, and the
    /// word is all there is to a register.
    pub proof fn lemma_raw_value_round_trip(value: u16, other: Self)
        ensures
            Self::new_with_raw_value(value).raw_value() == value,
            Self::new_with_raw_value(value)@ == value,
            Self::new_with_raw_value(other.raw_value()) == other,
    {
    }

    /// The whole word, which is the register's only field.
    pub fn sz(&self) -> (r: u16)
        ensures
            r == self@,
    {
        self.raw_value
    }
}

/// Control 1, at address 0x30. Watermark level, the role of the DRDY/TRG pin,
/// and the ultra-low-power drive.
#[derive(Clone, Copy, Debug)]
pub struct CNTL1 {
    raw_value: u8,
}

impl View for CNTL1 {
    type V = u8;

    closed spec fn view(&self) -> u8 {
        self.raw_value
    }
}

impl CNTL1 {
    /// The register that holds the byte `value`.
    pub closed spec fn spec_new_with_raw_value(value: u8) -> Self {
        CNTL1 { raw_value: value }
    }

    /// The byte that the register holds.
    pub open spec fn spec_raw_value(&self) -> u8 {
        self@
    }

    /// The register as read from the bus. Every byte is accepted, also one
    /// with bits set that belong to no field.
    #[verifier::when_used_as_spec(spec_new_with_raw_value)]
    pub fn new_with_raw_value(value: u8) -> (r: Self)
        ensures
            r == Self::spec_new_with_raw_value(value),
            r@ == value,
    {
        CNTL1 { raw_value: value }
    }

    /// The byte to put on the bus.
    #[verifier::when_used_as_spec(spec_raw_value)]
    pub fn raw_value(&self) -> (r: u8)
        ensures
            r == self@,
    {
        self.raw_value
    }

    /// A register built from a byte gives that byte back unchanged, and the
    /// byte is all there is to a register.
    pub proof fn lemma_raw_value_round_trip(value: u8, other: Self)
        ensures
            Self::new_with_raw_value(value).raw_value() == value,
            Self::new_with_raw_value(other.raw_value()) == other,
    {
    }

    /// What `watermark_level` is in the byte `raw`: bits 0 to 2.
    pub open spec fn spec_watermark_level(raw: u8) -> u8 {
        raw & 0x07
    }

    /// The buffer fill level at which data-ready is raised.
    pub fn watermark_level(&self) -> (r: U3)
        ensures
            r@ == Self::spec_watermark_level(self@),
    {
        let raw: u8 = self.raw_value;
        let field: u8 = raw & 0x07;
        assert(field <= 0x07) by (bit_vector)
            requires
                field == raw & 0x07,
        ;
        U3::new(field)
    }

    /// The byte `raw` with bits 0 to 2 replaced by `value` and every other bit
    /// kept.
    pub open spec fn spec_with_watermark_level(raw: u8, value: u8) -> u8 {
        (raw & 0xF8) | value
    }

    /// The register with `watermark_level` replaced by `value`. The new field
    /// reads back as `value`, and no other bit changes.
    pub fn with_watermark_level(&self, value: U3) -> (r: Self)
        ensures
            r@ == Self::spec_with_watermark_level(self@, value@),
            Self::spec_watermark_level(r@) == value@,
            r@ & 0xF8 == self@ & 0xF8,
    {
        let raw: u8 = self.raw_value;
        let value: u8 = value.value();
        let new_raw: u8 = (raw & 0xF8) | value;
        assert((new_raw & 0x07) == value && new_raw & 0xF8 == raw & 0xF8)
            by (bit_vector)
            requires
                value <= 0x07,
                new_raw == (raw & 0xF8) | value,
        ;
        CNTL1 { raw_value: new_raw }
    }

    /// What `drdy_trg_setting` is in the byte `raw`: bit 5.
    pub open spec fn spec_drdy_trg_setting(raw: u8) -> u8 {
        (raw >> 5) & 0x01
    }

    /// The role of the shared pin: 0 for data-ready output, 1 for trigger
    /// input.
    pub fn drdy_trg_setting(&self) -> (r: U1)
        ensures
            r@ == Self::spec_drdy_trg_setting(self@),
    {
        let raw: u8 = self.raw_value;
        let field: u8 = (raw >> 5) & 0x01;
        assert(field <= 0x01) by (bit_vector)
            requires
                field == (raw >> 5) & 0x01,
        ;
        U1::new(field)
    }

    /// The byte `raw` with bit 5 replaced by `value` and every other bit
    /// kept.
    pub open spec fn spec_with_drdy_trg_setting(raw: u8, value: u8) -> u8 {
        (raw & 0xDF) | (value << 5)
    }

    /// The register with `drdy_trg_setting` replaced by `value`. The new field
    /// reads back as `value`, and no other bit changes.
    pub fn with_drdy_trg_setting(&self, value: U1) -> (r: Self)
        ensures
            r@ == Self::spec_with_drdy_trg_setting(self@, value@),
            Self::spec_drdy_trg_setting(r@) == value@,
            r@ & 0xDF == self@ & 0xDF,
    {
        let raw: u8 = self.raw_value;
        let value: u8 = value.value();
        let new_raw: u8 = (raw & 0xDF) | (value << 5);
        assert(((new_raw >> 5) & 0x01) == value && new_raw & 0xDF == raw & 0xDF)
            by (bit_vector)
            requires
                value <= 0x01,
                new_raw == (raw & 0xDF) | (value << 5),
        ;
        CNTL1 { raw_value: new_raw }
    }

    /// What `mt2` is in the byte `raw`: bit 7.
    pub open spec fn spec_mt2(raw: u8) -> u8 {
        (raw >> 7) & 0x01
    }

    /// Ultra-low-power drive: 1 to enable, 0 to disable.
    pub fn mt2(&self) -> (r: U1)
        ensures
            r@ == Self::spec_mt2(self@),
    {
        let raw: u8 = self.raw_value;
        let field: u8 = (raw >> 7) & 0x01;
        assert(field <= 0x01) by (bit_vector)
            requires
                field == (raw >> 7) & 0x01,
        ;
        U1::new(field)
    }

    /// The byte `raw` with bit 7 replaced by `value` and every other bit
    /// kept.
    pub open spec fn spec_with_mt2(raw: u8, value: u8) -> u8 {
        (raw & 0x7F) | (value << 7)
    }

    /// The register with `mt2` replaced by `value`. The new field
    /// reads back as `value`, and no other bit changes.
    pub fn with_mt2(&self, value: U1) -> (r: Self)
        ensures
            r@ == Self::spec_with_mt2(self@, value@),
            Self::spec_mt2(r@) == value@,
            r@ & 0x7F == self@ & 0x7F,
    {
        let raw: u8 = self.raw_value;
        let value: u8 = value.value();
        let new_raw: u8 = (raw & 0x7F) | (value << 7);
        assert(((new_raw >> 7) & 0x01) == value && new_raw & 0x7F == raw & 0x7F)
            by (bit_vector)
            requires
                value <= 0x01,
                new_raw == (raw & 0x7F) | (value << 7),
        ;
        CNTL1 { raw_value: new_raw }
    }
}

/// Control 2, at address 0x31. Switches the temperature measurement.
#[derive(Clone, Copy, Debug)]
pub struct CNTL2 {
    raw_value: u8,
}

impl View for CNTL2 {
    type V = u8;

    closed spec fn view(&self) -> u8 {
        self.raw_value
    }
}

impl CNTL2 {
    /// The register that holds the byte `value`.
    pub closed spec fn spec_new_with_raw_value(value: u8) -> Self {
        CNTL2 { raw_value: value }
    }

    /// The byte that the register holds.
    pub open spec fn spec_raw_value(&self) -> u8 {
        self@
    }

    /// The register as read from the bus. Every byte is accepted, also one
    /// with bits set that belong to no field.
    #[verifier::when_used_as_spec(spec_new_with_raw_value)]
    pub fn new_with_raw_value(value: u8) -> (r: Self)
        ensures
            r == Self::spec_new_with_raw_value(value),
            r@ == value,
    {
        CNTL2 { raw_value: value }
    }

    /// The byte to put on the bus.
    #[verifier::when_used_as_spec(spec_raw_value)]
    pub fn raw_value(&self) -> (r: u8)
        ensures
            r == self@,
    {
        self.raw_value
    }

    /// A register built from a byte gives that byte back unchanged, and the
    /// byte is all there is to a register.
    pub proof fn lemma_raw_value_round_trip(value: u8, other: Self)
        ensures
            Self::new_with_raw_value(value).raw_value() == value,
            Self::new_with_raw_value(other.raw_value()) == other,
    {
    }

    /// What `temperature_enable` is in the byte `raw`: bit 6.
    pub open spec fn spec_temperature_enable(raw: u8) -> bool {
        raw & 0x40 != 0
    }

    /// Whether the temperature is measured.
    pub fn temperature_enable(&self) -> (r: bool)
        ensures
            r == Self::spec_temperature_enable(self@),
    {
        self.raw_value & 0x40 != 0
    }

    /// The byte `raw` with bit 6 set to `value` and every other bit kept.
    pub open spec fn spec_with_temperature_enable(raw: u8, value: bool) -> u8 {
        if value {
            raw | 0x40
        } else {
            raw & 0xBF
        }
    }

    /// The register with `temperature_enable` replaced by `value`. The new field
    /// reads back as `value`, and no other bit changes.
    pub fn with_temperature_enable(&self, value: bool) -> (r: Self)
        ensures
            r@ == Self::spec_with_temperature_enable(self@, value),
            Self::spec_temperature_enable(r@) == value,
            r@ & 0xBF == self@ & 0xBF,
    {
        let raw: u8 = self.raw_value;
        let new_raw: u8 = if value {
            raw | 0x40
        } else {
            raw & 0xBF
        };
        assert((new_raw & 0x40 != 0) == value && new_raw & 0xBF == raw & 0xBF)
            by (bit_vector)
            requires
                new_raw == (if value {
                    raw | 0x40
                } else {
                    raw & 0xBF
                }),
        ;
        CNTL2 { raw_value: new_raw }
    }
}

/// Control 3, at address 0x32. Buffer enable, sensor drive and operation mode.
#[derive(Clone, Copy, Debug)]
pub struct CNTL3 {
    raw_value: u8,
}

impl View for CNTL3 {
    type V = u8;

    closed spec fn view(&self) -> u8 {
        self.raw_value
    }
}

impl CNTL3 {
    /// The register that holds the byte `value`.
    pub closed spec fn spec_new_with_raw_value(value: u8) -> Self {
        CNTL3 { raw_value: value }
    }

    /// The byte that the register holds.
    pub open spec fn spec_raw_value(&self) -> u8 {
        self@
    }

    /// The register as read from the bus. Every byte is accepted, also one
    /// with bits set that belong to no field.
    #[verifier::when_used_as_spec(spec_new_with_raw_value)]
    pub fn new_with_raw_value(value: u8) -> (r: Self)
        ensures
            r == Self::spec_new_with_raw_value(value),
            r@ == value,
    {
        CNTL3 { raw_value: value }
    }

    /// The byte to put on the bus.
    #[verifier::when_used_as_spec(spec_raw_value)]
    pub fn raw_value(&self) -> (r: u8)
        ensures
            r == self@,
    {
        self.raw_value
    }

    /// A register built from a byte gives that byte back unchanged, and the
    /// byte is all there is to a register.
    pub proof fn lemma_raw_value_round_trip(value: u8, other: Self)
        ensures
            Self::new_with_raw_value(value).raw_value() == value,
            Self::new_with_raw_value(other.raw_value()) == other,
    {
    }

    /// What `fifo_enable` is in the byte `raw`: bit 7.
    pub open spec fn spec_fifo_enable(raw: u8) -> bool {
        raw & 0x80 != 0
    }

    /// Whether measurements are buffered. Clearing the bit also empties the
    /// buffer.
    pub fn fifo_enable(&self) -> (r: bool)
        ensures
            r == Self::spec_fifo_enable(self@),
    {
        self.raw_value & 0x80 != 0
    }

    /// The byte `raw` with bit 7 set to `value` and every other bit kept.
    pub open spec fn spec_with_fifo_enable(raw: u8, value: bool) -> u8 {
        if value {
            raw | 0x80
        } else {
            raw & 0x7F
        }
    }

    /// The register with `fifo_enable` replaced by `value`. The new field
    /// reads back as `value`, and no other bit changes.
    pub fn with_fifo_enable(&self, value: bool) -> (r: Self)
        ensures
            r@ == Self::spec_with_fifo_enable(self@, value),
            Self::spec_fifo_enable(r@) == value,
            r@ & 0x7F == self@ & 0x7F,
    {
        let raw: u8 = self.raw_value;
        let new_raw: u8 = if value {
            raw | 0x80
        } else {
            raw & 0x7F
        };
        assert((new_raw & 0x80 != 0) == value && new_raw & 0x7F == raw & 0x7F)
            by (bit_vector)
            requires
                new_raw == (if value {
                    raw | 0x80
                } else {
                    raw & 0x7F
                }),
        ;
        CNTL3 { raw_value: new_raw }
    }

    /// What `measurement_type` is in the byte `raw`: bits 5 to 6.
    pub open spec fn spec_measurement_type(raw: u8) -> u8 {
        (raw >> 5) & 0x03
    }

    /// The sensor drive: 0 and 1 for the low-power drives, 2 and 3 for the
    /// low-noise drives. It counts only while the ultra-low-power bit of CNTL1
    /// is clear.
    pub fn measurement_type(&self) -> (r: U2)
        ensures
            r@ == Self::spec_measurement_type(self@),
    {
        let raw: u8 = self.raw_value;
        let field: u8 = (raw >> 5) & 0x03;
        assert(field <= 0x03) by (bit_vector)
            requires
                field == (raw >> 5) & 0x03,
        ;
        U2::new(field)
    }

    /// The byte `raw` with bits 5 to 6 replaced by `value` and every other bit
    /// kept.
    pub open spec fn spec_with_measurement_type(raw: u8, value: u8) -> u8 {
        (raw & 0x9F) | (value << 5)
    }

    /// The register with `measurement_type` replaced by `value`. The new field
    /// reads back as `value`, and no other bit changes.
    pub fn with_measurement_type(&self, value: U2) -> (r: Self)
        ensures
            r@ == Self::spec_with_measurement_type(self@, value@),
            Self::spec_measurement_type(r@) == value@,
            r@ & 0x9F == self@ & 0x9F,
    {
        let raw: u8 = self.raw_value;
        let value: u8 = value.value();
        let new_raw: u8 = (raw & 0x9F) | (value << 5);
        assert(((new_raw >> 5) & 0x03) == value && new_raw & 0x9F == raw & 0x9F)
            by (bit_vector)
            requires
                value <= 0x03,
                new_raw == (raw & 0x9F) | (value << 5),
        ;
        CNTL3 { raw_value: new_raw }
    }

    /// What `operation_mode` is in the byte `raw`: bits 0 to 4.
    pub open spec fn spec_operation_mode(raw: u8) -> u8 {
        raw & 0x1F
    }

    /// The operation mode: 0 for power-down, 1 for a single measurement, 16
    /// for the self-test, 24 for the external trigger; the continuous modes
    /// lie below 16.
    pub fn operation_mode(&self) -> (r: U5)
        ensures
            r@ == Self::spec_operation_mode(self@),
    {
        let raw: u8 = self.raw_value;
        let field: u8 = raw & 0x1F;
        assert(field <= 0x1F) by (bit_vector)
            requires
                field == raw & 0x1F,
        ;
        U5::new(field)
    }

    /// The byte `raw` with bits 0 to 4 replaced by `value` and every other bit
    /// kept.
    pub open spec fn spec_with_operation_mode(raw: u8, value: u8) -> u8 {
        (raw & 0xE0) | value
    }

    /// The register with `operation_mode` replaced by `value`. The new field
    /// reads back as `value`, and no other bit changes.
    pub fn with_operation_mode(&self, value: U5) -> (r: Self)
        ensures
            r@ == Self::spec_with_operation_mode(self@, value@),
            Self::spec_operation_mode(r@) == value@,
            r@ & 0xE0 == self@ & 0xE0,
    {
        let raw: u8 = self.raw_value;
        let value: u8 = value.value();
        let new_raw: u8 = (raw & 0xE0) | value;
        assert((new_raw & 0x1F) == value && new_raw & 0xE0 == raw & 0xE0)
            by (bit_vector)
            requires
                value <= 0x1F,
                new_raw == (raw & 0xE0) | value,
        ;
        CNTL3 { raw_value: new_raw }
    }
}

/// Control 4, at address 0x33. Holds the soft-reset bit.
#[derive(Clone, Copy, Debug)]
pub struct CNTL4 {
    raw_value: u8,
}

impl View for CNTL4 {
    type V = u8;

    closed spec fn view(&self) -> u8 {
        self.raw_value
    }
}

impl CNTL4 {
    /// The register that holds the byte `value`.
    pub closed spec fn spec_new_with_raw_value(value: u8) -> Self {
        CNTL4 { raw_value: value }
    }

    /// The byte that the register holds.
    pub open spec fn spec_raw_value(&self) -> u8 {
        self@
    }

    /// The register as read from the bus. Every byte is accepted, also one
    /// with bits set that belong to no field.
    #[verifier::when_used_as_spec(spec_new_with_raw_value)]
    pub fn new_with_raw_value(value: u8) -> (r: Self)
        ensures
            r == Self::spec_new_with_raw_value(value),
            r@ == value,
    {
        CNTL4 { raw_value: value }
    }

    /// The byte to put on the bus.
    #[verifier::when_used_as_spec(spec_raw_value)]
    pub fn raw_value(&self) -> (r: u8)
        ensures
            r == self@,
    {
        self.raw_value
    }

    /// A register built from a byte gives that byte back unchanged, and the
    /// byte is all there is to a register.
    pub proof fn lemma_raw_value_round_trip(value: u8, other: Self)
        ensures
            Self::new_with_raw_value(value).raw_value() == value,
            Self::new_with_raw_value(other.raw_value()) == other,
    {
    }

    /// What `soft_reset` is in the byte `raw`: bit 0.
    pub open spec fn spec_soft_reset(raw: u8) -> bool {
        raw & 0x01 != 0
    }

    /// Writing 1 resets the sensor, which clears the bit again when it is
    /// done.
    pub fn soft_reset(&self) -> (r: bool)
        ensures
            r == Self::spec_soft_reset(self@),
    {
        self.raw_value & 0x01 != 0
    }

    /// The byte `raw` with bit 0 set to `value` and every other bit kept.
    pub open spec fn spec_with_soft_reset(raw: u8, value: bool) -> u8 {
        if value {
            raw | 0x01
        } else {
            raw & 0xFE
        }
    }

    /// The register with `soft_reset` replaced by `value`. The new field
    /// reads back as `value`, and no other bit changes.
    pub fn with_soft_reset(&self, value: bool) -> (r: Self)
        ensures
            r@ == Self::spec_with_soft_reset(self@, value),
            Self::spec_soft_reset(r@) == value,
            r@ & 0xFE == self@ & 0xFE,
    {
        let raw: u8 = self.raw_value;
        let new_raw: u8 = if value {
            raw | 0x01
        } else {
            raw & 0xFE
        };
        assert((new_raw & 0x01 != 0) == value && new_raw & 0xFE == raw & 0xFE)
            by (bit_vector)
            requires
                new_raw == (if value {
                    raw | 0x01
                } else {
                    raw & 0xFE
                }),
        ;
        CNTL4 { raw_value: new_raw }
    }
}

/// I2C disable, at address 0x36. Switches the I2C interface off.
#[derive(Clone, Copy, Debug)]
pub struct I2CDIS {
    raw_value: u8,
}

impl View for I2CDIS {
    type V = u8;

    closed spec fn view(&self) -> u8 {
        self.raw_value
    }
}

impl I2CDIS {
    /// The register that holds the byte `value`.
    pub closed spec fn spec_new_with_raw_value(value: u8) -> Self {
        I2CDIS { raw_value: value }
    }

    /// The byte that the register holds.
    pub open spec fn spec_raw_value(&self) -> u8 {
        self@
    }

    /// The register as read from the bus. Every byte is accepted, also one
    /// with bits set that belong to no field.
    #[verifier::when_used_as_spec(spec_new_with_raw_value)]
    pub fn new_with_raw_value(value: u8) -> (r: Self)
        ensures
            r == Self::spec_new_with_raw_value(value),
            r@ == value,
    {
        I2CDIS { raw_value: value }
    }

    /// The byte to put on the bus.
    #[verifier::when_used_as_spec(spec_raw_value)]
    pub fn raw_value(&self) -> (r: u8)
        ensures
            r == self@,
    {
        self.raw_value
    }

    /// A register built from a byte gives that byte back unchanged, and the
    /// byte is all there is to a register.
    pub proof fn lemma_raw_value_round_trip(value: u8, other: Self)
        ensures
            Self::new_with_raw_value(value).raw_value() == value,
            Self::new_with_raw_value(other.raw_value()) == other,
    {
    }

    /// The code 0b0001_1011 disables I2C until the next reset.
    pub fn i2c_disable(&self) -> (r: u8)
        ensures
            r == self@,
    {
        self.raw_value
    }

    /// The register with `i2c_disable` replaced by `value`.
    pub fn with_i2c_disable(&self, value: u8) -> (r: Self)
        ensures
            r@ == value,
    {
        I2CDIS { raw_value: value }
    }
}

/// Test register, at address 0x37. For factory tests; not to be written in
/// normal use.
#[derive(Clone, Copy, Debug)]
pub struct TS {
    raw_value: u8,
}

impl View for TS {
    type V = u8;

    closed spec fn view(&self) -> u8 {
        self.raw_value
    }
}

impl TS {
    /// The register that holds the byte `value`.
    pub closed spec fn spec_new_with_raw_value(value: u8) -> Self {
        TS { raw_value: value }
    }

    /// The byte that the register holds.
    pub open spec fn spec_raw_value(&self) -> u8 {
        self@
    }

    /// The register as read from the bus. Every byte is accepted, also one
    /// with bits set that belong to no field.
    #[verifier::when_used_as_spec(spec_new_with_raw_value)]
    pub fn new_with_raw_value(value: u8) -> (r: Self)
        ensures
            r == Self::spec_new_with_raw_value(value),
            r@ == value,
    {
        TS { raw_value: value }
    }

    /// The byte to put on the bus.
    #[verifier::when_used_as_spec(spec_raw_value)]
    pub fn raw_value(&self) -> (r: u8)
        ensures
            r == self@,
    {
        self.raw_value
    }

    /// A register built from a byte gives that byte back unchanged, and the
    /// byte is all there is to a register.
    pub proof fn lemma_raw_value_round_trip(value: u8, other: Self)
        ensures
            Self::new_with_raw_value(value).raw_value() == value,
            Self::new_with_raw_value(other.raw_value()) == other,
    {
    }

    /// The test byte.
    pub fn test_bits(&self) -> (r: u8)
        ensures
            r == self@,
    {
        self.raw_value
    }

    /// The register with `test_bits` replaced by `value`.
    pub fn with_test_bits(&self, value: u8) -> (r: Self)
        ensures
            r@ == value,
    {
        TS { raw_value: value }
    }
}

} // verus!
