use ak09940a::ll::reg::{
    sign_extend_u24, RegAddress, CNTL1, CNTL2, CNTL3, CNTL4, HX, HY, HZ, I2CDIS, RSV1, RSV2, ST,
    ST1, ST2, SX, SY, SZ, TMPS, TS, WIA1, WIA2,
};
use ak09940a::uint::{U1, U2, U24, U3, U4, U5};

#[test]
fn it_works() {
    let cntl1_value = 0b01000001;
    let cntl1 = CNTL1::new_with_raw_value(cntl1_value);
    assert_eq!(cntl1.raw_value(), cntl1_value);

    let cntl1_mt2_1 = cntl1.with_mt2(U1::new(1));
    assert_eq!(cntl1_mt2_1.raw_value(), 0b11000001);
}

#[test]
fn reg_it_works() {
    assert_eq!(2 + 2, 4);
}

#[test]
fn test_hx() {
    let hx_value = U24::new(0x123456);
    let hx = HX::new_with_raw_value(hx_value);
    assert_eq!(hx.raw_value(), hx_value);
}

#[test]
fn test_sign_extend_u24() {
    let value = U24::new(0xFFFFFF);
    let extended = sign_extend_u24(value);
    assert_eq!(extended, -1);

    let value = U24::new(0x7FFFFF);
    let extended = sign_extend_u24(value);
    assert_eq!(extended, 0x7FFFFF);
}

#[test]
fn test_tmps() {
    let tmps = TMPS::new_with_raw_value(0x00);
    assert_eq!(tmps.milli_celsius(), 3000);

    let tmps = TMPS::new_with_raw_value(0x7F);
    assert_eq!(tmps.milli_celsius(), -4470);

    let tmps = TMPS::new_with_raw_value(0x80);
    assert_eq!(tmps.milli_celsius(), 10529);
}

#[test]
fn sign_extension_at_the_sign_boundary() {
    assert_eq!(sign_extend_u24(U24::new(0x000000)), 0);
    assert_eq!(sign_extend_u24(U24::new(0x000001)), 1);
    assert_eq!(sign_extend_u24(U24::new(0x800000)), -8_388_608);
    assert_eq!(sign_extend_u24(U24::new(0x800001)), -8_388_607);
    assert_eq!(sign_extend_u24(U24::new(0xFFFFFE)), -2);
}

#[test]
fn sign_extension_keeps_the_low_24_bits() {
    let mut pattern: u32 = 0;
    while pattern <= 0xFF_FFFF {
        let extended = sign_extend_u24(U24::new(pattern));
        assert_eq!((extended as u32) & 0xFF_FFFF, pattern);
        assert!((-0x80_0000..0x80_0000).contains(&extended));
        assert_eq!(extended < 0, pattern & 0x80_0000 != 0);
        pattern += 0x0F_0F1;
    }
}

#[test]
fn sign_extension_agrees_with_a_shift_pair() {
    for pattern in [0u32, 1, 0x7F_FFFF, 0x80_0000, 0x80_0001, 0xAB_CDEF, 0xFF_FFFF] {
        let by_shifts = ((pattern << 8) as i32) >> 8;
        assert_eq!(sign_extend_u24(U24::new(pattern)), by_shifts);
    }
}

#[test]
fn magnitude_is_the_sign_extended_word() {
    assert_eq!(HX::new_with_raw_value(U24::new(0xFFFFFF)).magnitude(), -1);
    assert_eq!(HY::new_with_raw_value(U24::new(0x7FFFFF)).magnitude(), 0x7FFFFF);
    assert_eq!(HZ::new_with_raw_value(U24::new(0x800000)).magnitude(), -0x800000);
    assert_eq!(HX::new_with_raw_value(U24::new(0x000123)).magnitude(), 0x123);
}

#[test]
fn temperature_of_every_raw_byte() {
    for raw in 0u8..=255 {
        let signed = raw as i8 as i32;
        let expected = (30000 - (signed * 58823 / 100)) / 10;
        assert_eq!(TMPS::new_with_raw_value(raw).milli_celsius(), expected);
    }
}

#[test]
fn temperature_rounds_toward_zero() {
    assert_eq!(TMPS::new_with_raw_value(0x01).milli_celsius(), 2941);
    assert_eq!(TMPS::new_with_raw_value(0xFF).milli_celsius(), 3058);
    assert_eq!(TMPS::new_with_raw_value(0x33).milli_celsius(), 0);
    assert_eq!(TMPS::new_with_raw_value(0x34).milli_celsius(), -58);
}

#[test]
fn byte_registers_give_back_their_raw_value() {
    for raw in 0u8..=255 {
        assert_eq!(WIA1::new_with_raw_value(raw).raw_value(), raw);
        assert_eq!(WIA2::new_with_raw_value(raw).raw_value(), raw);
        assert_eq!(RSV1::new_with_raw_value(raw).raw_value(), raw);
        assert_eq!(RSV2::new_with_raw_value(raw).raw_value(), raw);
        assert_eq!(ST::new_with_raw_value(raw).raw_value(), raw);
        assert_eq!(ST1::new_with_raw_value(raw).raw_value(), raw);
        assert_eq!(TMPS::new_with_raw_value(raw).raw_value(), raw);
        assert_eq!(ST2::new_with_raw_value(raw).raw_value(), raw);
        assert_eq!(CNTL1::new_with_raw_value(raw).raw_value(), raw);
        assert_eq!(CNTL2::new_with_raw_value(raw).raw_value(), raw);
        assert_eq!(CNTL3::new_with_raw_value(raw).raw_value(), raw);
        assert_eq!(CNTL4::new_with_raw_value(raw).raw_value(), raw);
        assert_eq!(I2CDIS::new_with_raw_value(raw).raw_value(), raw);
        assert_eq!(TS::new_with_raw_value(raw).raw_value(), raw);
    }
}

#[test]
fn word_registers_give_back_their_raw_value() {
    for raw in [0u32, 1, 0x123456, 0x7FFFFF, 0x800000, 0xFFFFFF] {
        assert_eq!(HX::new_with_raw_value(U24::new(raw)).raw_value().value(), raw);
        assert_eq!(HY::new_with_raw_value(U24::new(raw)).raw_value().value(), raw);
        assert_eq!(HZ::new_with_raw_value(U24::new(raw)).raw_value().value(), raw);
        assert_eq!(HX::new_with_raw_value(U24::new(raw)).hx().value(), raw);
        assert_eq!(HY::new_with_raw_value(U24::new(raw)).hy().value(), raw);
        assert_eq!(HZ::new_with_raw_value(U24::new(raw)).hz().value(), raw);
    }
    for raw in [0u16, 1, 0x1234, 0x7FFF, 0x8000, 0xFFFF] {
        assert_eq!(SX::new_with_raw_value(raw).raw_value(), raw);
        assert_eq!(SY::new_with_raw_value(raw).raw_value(), raw);
        assert_eq!(SZ::new_with_raw_value(raw).raw_value(), raw);
        assert_eq!(SX::new_with_raw_value(raw).sx(), raw);
        assert_eq!(SY::new_with_raw_value(raw).sy(), raw);
        assert_eq!(SZ::new_with_raw_value(raw).sz(), raw);
    }
}

#[test]
fn whole_byte_fields() {
    assert_eq!(WIA1::new_with_raw_value(0x48).company_id(), 0x48);
    assert_eq!(WIA2::new_with_raw_value(0xA3).device_id(), 0xA3);
    assert_eq!(RSV1::new_with_raw_value(0x5A).reserved(), 0x5A);
    assert_eq!(RSV2::new_with_raw_value(0xA5).reserved(), 0xA5);
    assert_eq!(TMPS::new_with_raw_value(0x7F).tmps(), 0x7F);
    assert_eq!(I2CDIS::new_with_raw_value(0x1B).i2c_disable(), 0x1B);
    assert_eq!(I2CDIS::new_with_raw_value(0x00).with_i2c_disable(0x1B).raw_value(), 0x1B);
    assert_eq!(TS::new_with_raw_value(0x12).test_bits(), 0x12);
    assert_eq!(TS::new_with_raw_value(0x12).with_test_bits(0x34).raw_value(), 0x34);
}

#[test]
fn status_flags() {
    let st = ST::new_with_raw_value(0b0000_0010);
    assert!(st.data_overrun());
    assert!(!st.data_ready());
    let st = ST::new_with_raw_value(0b1111_1101);
    assert!(!st.data_overrun());
    assert!(st.data_ready());

    let st1 = ST1::new_with_raw_value(0b0001_0101);
    assert_eq!(st1.frame_number().value(), 0b1010);
    assert!(st1.data_ready());
    let st1 = ST1::new_with_raw_value(0b1110_0000);
    assert_eq!(st1.frame_number().value(), 0);
    assert!(!st1.data_ready());
    assert_eq!(ST1::new_with_raw_value(0xFF).frame_number().value(), 0x0F);

    let st2 = ST2::new_with_raw_value(0b0000_0010);
    assert!(st2.invalid_data());
    assert!(!st2.data_overrun());
    let st2 = ST2::new_with_raw_value(0b0000_0001);
    assert!(!st2.invalid_data());
    assert!(st2.data_overrun());
}

#[test]
fn cntl1_fields() {
    let cntl1 = CNTL1::new_with_raw_value(0b1010_0101);
    assert_eq!(cntl1.watermark_level().value(), 0b101);
    assert_eq!(cntl1.drdy_trg_setting().value(), 1);
    assert_eq!(cntl1.mt2().value(), 1);

    let zero = CNTL1::new_with_raw_value(0x00);
    assert_eq!(zero.with_watermark_level(U3::new(7)).raw_value(), 0b0000_0111);
    assert_eq!(zero.with_drdy_trg_setting(U1::new(1)).raw_value(), 0b0010_0000);
    assert_eq!(zero.with_mt2(U1::new(1)).raw_value(), 0b1000_0000);

    let ones = CNTL1::new_with_raw_value(0xFF);
    assert_eq!(ones.with_watermark_level(U3::new(2)).raw_value(), 0b1111_1010);
    assert_eq!(ones.with_drdy_trg_setting(U1::new(0)).raw_value(), 0b1101_1111);
    assert_eq!(ones.with_mt2(U1::new(0)).raw_value(), 0b0111_1111);
}

#[test]
fn cntl2_and_cntl4_flags() {
    assert!(CNTL2::new_with_raw_value(0b0100_0000).temperature_enable());
    assert!(!CNTL2::new_with_raw_value(0b1011_1111).temperature_enable());
    assert_eq!(CNTL2::new_with_raw_value(0x00).with_temperature_enable(true).raw_value(), 0x40);
    assert_eq!(CNTL2::new_with_raw_value(0xFF).with_temperature_enable(false).raw_value(), 0xBF);

    assert!(CNTL4::new_with_raw_value(0x01).soft_reset());
    assert!(!CNTL4::new_with_raw_value(0xFE).soft_reset());
    assert_eq!(CNTL4::new_with_raw_value(0x00).with_soft_reset(true).raw_value(), 0x01);
    assert_eq!(CNTL4::new_with_raw_value(0xFF).with_soft_reset(false).raw_value(), 0xFE);
}

#[test]
fn cntl3_fields() {
    let cntl3 = CNTL3::new_with_raw_value(0b1101_1000);
    assert!(cntl3.fifo_enable());
    assert_eq!(cntl3.measurement_type().value(), 0b10);
    assert_eq!(cntl3.operation_mode().value(), 0b11000);

    let zero = CNTL3::new_with_raw_value(0x00);
    assert_eq!(zero.with_fifo_enable(true).raw_value(), 0x80);
    assert_eq!(zero.with_measurement_type(U2::new(3)).raw_value(), 0x60);
    assert_eq!(zero.with_operation_mode(U5::new(0x1F)).raw_value(), 0x1F);

    let ones = CNTL3::new_with_raw_value(0xFF);
    assert_eq!(ones.with_fifo_enable(false).raw_value(), 0x7F);
    assert_eq!(ones.with_measurement_type(U2::new(1)).raw_value(), 0xBF);
    assert_eq!(ones.with_operation_mode(U5::new(1)).raw_value(), 0xE1);
}

#[test]
fn a_field_reads_back_and_leaves_the_others() {
    for raw in 0u8..=255 {
        let cntl3 = CNTL3::new_with_raw_value(raw);
        for mode in 0u8..=0x1F {
            let changed = cntl3.with_operation_mode(U5::new(mode));
            assert_eq!(changed.operation_mode().value(), mode);
            assert_eq!(changed.measurement_type(), cntl3.measurement_type());
            assert_eq!(changed.fifo_enable(), cntl3.fifo_enable());
        }
        for drive in 0u8..=3 {
            let changed = cntl3.with_measurement_type(U2::new(drive));
            assert_eq!(changed.measurement_type().value(), drive);
            assert_eq!(changed.operation_mode(), cntl3.operation_mode());
            assert_eq!(changed.fifo_enable(), cntl3.fifo_enable());
        }
        let cntl1 = CNTL1::new_with_raw_value(raw);
        for level in 0u8..=7 {
            let changed = cntl1.with_watermark_level(U3::new(level));
            assert_eq!(changed.watermark_level().value(), level);
            assert_eq!(changed.raw_value() & 0xF8, raw & 0xF8);
        }
    }
}

#[test]
fn narrow_integers_take_only_what_fits() {
    assert_eq!(U1::try_new(1).map(|v| v.value()), Some(1));
    assert_eq!(U1::try_new(2), None);
    assert_eq!(U2::try_new(3).map(|v| v.value()), Some(3));
    assert_eq!(U2::try_new(4), None);
    assert_eq!(U3::try_new(7).map(|v| v.value()), Some(7));
    assert_eq!(U3::try_new(8), None);
    assert_eq!(U4::try_new(15).map(|v| v.value()), Some(15));
    assert_eq!(U4::try_new(16), None);
    assert_eq!(U5::try_new(31).map(|v| v.value()), Some(31));
    assert_eq!(U5::try_new(32), None);
    assert_eq!(U5::try_new(255), None);
    assert_eq!(U24::try_new(0xFF_FFFF).map(|v| v.value()), Some(0xFF_FFFF));
    assert_eq!(U24::try_new(0x100_0000), None);
    assert_eq!(U4::new(9).value(), 9);
    assert_eq!(U24::new(0).value(), 0);
}

#[test]
fn three_bytes_low_first() {
    assert_eq!(U24::from_le_bytes([0x56, 0x34, 0x12]).value(), 0x123456);
    assert_eq!(U24::from_le_bytes([0xFF, 0x00, 0x00]).value(), 0x0000FF);
    assert_eq!(U24::from_le_bytes([0x00, 0xFF, 0x00]).value(), 0x00FF00);
    assert_eq!(U24::from_le_bytes([0x00, 0x00, 0xFF]).value(), 0xFF0000);
    assert_eq!(U24::from_le_bytes([0xFF, 0xFF, 0xFF]).value(), 0xFFFFFF);
}

#[test]
fn narrow_integers_agree_with_arbitrary_int() {
    for bytes in [[0u8, 0, 0], [1, 2, 3], [0x56, 0x34, 0x12], [0xFF, 0xFF, 0x7F], [0, 0, 0x80]] {
        assert_eq!(
            U24::from_le_bytes(bytes).value(),
            arbitrary_int::u24::from_le_bytes(bytes).value()
        );
    }
    for value in 0u8..=255 {
        assert_eq!(U5::try_new(value).is_some(), arbitrary_int::u5::try_new(value).is_ok());
        assert_eq!(U1::try_new(value).is_some(), arbitrary_int::u1::try_new(value).is_ok());
        assert_eq!(U2::try_new(value).is_some(), arbitrary_int::u2::try_new(value).is_ok());
        assert_eq!(U3::try_new(value).is_some(), arbitrary_int::u3::try_new(value).is_ok());
        assert_eq!(U4::try_new(value).is_some(), arbitrary_int::u4::try_new(value).is_ok());
    }
}

#[test]
fn register_addresses() {
    let table = [
        (RegAddress::WIA1, 0x00u8),
        (RegAddress::WIA2, 0x01),
        (RegAddress::RSV1, 0x02),
        (RegAddress::RSV2, 0x03),
        (RegAddress::ST, 0x0F),
        (RegAddress::ST1, 0x10),
        (RegAddress::HXL, 0x11),
        (RegAddress::HXM, 0x12),
        (RegAddress::HXH, 0x13),
        (RegAddress::HYL, 0x14),
        (RegAddress::HYM, 0x15),
        (RegAddress::HYH, 0x16),
        (RegAddress::HZL, 0x17),
        (RegAddress::HZM, 0x18),
        (RegAddress::HZH, 0x19),
        (RegAddress::TMPS, 0x1A),
        (RegAddress::ST2, 0x1B),
        (RegAddress::SXL, 0x20),
        (RegAddress::SXH, 0x21),
        (RegAddress::SYL, 0x22),
        (RegAddress::SYH, 0x23),
        (RegAddress::SZL, 0x24),
        (RegAddress::SZH, 0x25),
        (RegAddress::CNTL1, 0x30),
        (RegAddress::CNTL2, 0x31),
        (RegAddress::CNTL3, 0x32),
        (RegAddress::CNTL4, 0x33),
        (RegAddress::I2CDIS, 0x36),
        (RegAddress::TS, 0x37),
    ];
    for (reg, addr) in table {
        assert_eq!(reg.addr(), addr);
    }
}
