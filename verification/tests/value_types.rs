use sdm72_lib::error::Error;
use sdm72_lib::protocol::{
    Address, AutoScrollTime, BacklightTime, BaudRate, KPPA, MeterCode, ParityAndStopBit,
    Password, PulseConstant, PulseEnergyType, PulseWidth, ResetHistoricalData, SerialNumber,
    SoftwareVersion, SystemType,
};

fn words_of_f32(x: f32) -> Vec<u16> {
    let bits = x.to_bits();
    vec![(bits >> 16) as u16, (bits & 0xFFFF) as u16]
}

#[test]
fn system_type_round_trip() {
    for v in [SystemType::Type1P2W, SystemType::Type3P4W] {
        let words = v.encode_for_write_registers();
        assert_eq!(SystemType::decode_from_holding_registers(&words), Ok(v));
    }
    assert_eq!(
        SystemType::decode_from_holding_registers(&words_of_f32(1.0)),
        Ok(SystemType::Type1P2W)
    );
    assert_eq!(
        SystemType::decode_from_holding_registers(&words_of_f32(3.0)),
        Ok(SystemType::Type3P4W)
    );
    assert_eq!(
        SystemType::decode_from_holding_registers(&words_of_f32(2.0)),
        Err(Error::InvalidValue)
    );
}

#[test]
fn parity_and_stop_bit_round_trip() {
    let all = [
        ParityAndStopBit::NoParityOneStopBit,
        ParityAndStopBit::EvenParityOneStopBit,
        ParityAndStopBit::OddParityOneStopBit,
        ParityAndStopBit::NoParityTwoStopBits,
    ];
    for (code, v) in all.iter().enumerate() {
        let words = v.encode_for_write_registers();
        assert_eq!(words, words_of_f32(code as f32));
        assert_eq!(ParityAndStopBit::decode_from_holding_registers(&words), Ok(*v));
    }
    assert_eq!(
        ParityAndStopBit::decode_from_holding_registers(&words_of_f32(4.0)),
        Err(Error::InvalidValue)
    );
}

#[test]
fn pulse_constant_round_trip() {
    let all = [
        PulseConstant::PC1000,
        PulseConstant::PC100,
        PulseConstant::PC10,
        PulseConstant::PC1,
    ];
    for (code, v) in all.iter().enumerate() {
        let words = v.encode_for_write_registers();
        assert_eq!(words, words_of_f32(code as f32));
        assert_eq!(PulseConstant::decode_from_holding_registers(&words), Ok(*v));
    }
}

#[test]
fn pulse_energy_type_codes_are_not_ordinal() {
    // the device codes are {1, 2, 4}
    assert_eq!(
        PulseEnergyType::ImportActiveEnergy.encode_for_write_registers(),
        words_of_f32(1.0)
    );
    assert_eq!(
        PulseEnergyType::TotalActiveEnergy.encode_for_write_registers(),
        words_of_f32(2.0)
    );
    assert_eq!(
        PulseEnergyType::ExportActiveEnergy.encode_for_write_registers(),
        words_of_f32(4.0)
    );
    for v in [
        PulseEnergyType::ImportActiveEnergy,
        PulseEnergyType::TotalActiveEnergy,
        PulseEnergyType::ExportActiveEnergy,
    ] {
        let words = v.encode_for_write_registers();
        assert_eq!(PulseEnergyType::decode_from_holding_registers(&words), Ok(v));
    }
    // 3 is not a legal code even though three variants exist
    assert_eq!(
        PulseEnergyType::decode_from_holding_registers(&words_of_f32(3.0)),
        Err(Error::InvalidValue)
    );
}

#[test]
fn baud_rate_code_table_is_exact() {
    // decode side of the fixed non-sequential table
    assert_eq!(
        BaudRate::decode_from_holding_registers(&words_of_f32(5.0)),
        Ok(BaudRate::B1200)
    );
    assert_eq!(
        BaudRate::decode_from_holding_registers(&words_of_f32(0.0)),
        Ok(BaudRate::B2400)
    );
    assert_eq!(
        BaudRate::decode_from_holding_registers(&words_of_f32(1.0)),
        Ok(BaudRate::B4800)
    );
    assert_eq!(
        BaudRate::decode_from_holding_registers(&words_of_f32(2.0)),
        Ok(BaudRate::B9600)
    );
    assert_eq!(
        BaudRate::decode_from_holding_registers(&words_of_f32(3.0)),
        Ok(BaudRate::B19200)
    );
    // encode is the exact inverse for all five supported rates
    for v in [
        BaudRate::B1200,
        BaudRate::B2400,
        BaudRate::B4800,
        BaudRate::B9600,
        BaudRate::B19200,
    ] {
        let words = v.encode_for_write_registers();
        assert_eq!(BaudRate::decode_from_holding_registers(&words), Ok(v));
    }
    // any other code fails
    assert_eq!(
        BaudRate::decode_from_holding_registers(&words_of_f32(4.0)),
        Err(Error::InvalidValue)
    );
    assert_eq!(
        BaudRate::decode_from_holding_registers(&words_of_f32(6.0)),
        Err(Error::InvalidValue)
    );
}

#[test]
fn baud_rate_from_rate() {
    assert_eq!(BaudRate::try_from(1200), Ok(BaudRate::B1200));
    assert_eq!(BaudRate::try_from(19200), Ok(BaudRate::B19200));
    assert_eq!(BaudRate::try_from(2401), Err(Error::InvalidBaudRate));
    assert_eq!(BaudRate::try_from(0), Err(Error::InvalidBaudRate));
    assert_eq!(BaudRate::B4800.rate(), 4800);
}

#[test]
fn baud_rate_raw_decode() {
    assert_eq!(BaudRate::decode(&words_of_f32(5.0)), Ok(5));
    assert_eq!(BaudRate::decode(&[0x4000]), Err(Error::WordsCountError));
}

#[test]
fn address_boundaries() {
    assert_eq!(Address::try_from(0), Err(Error::AddressOutOfRange(0)));
    assert_eq!(Address::try_from(248), Err(Error::AddressOutOfRange(248)));
    assert_eq!(Address::try_from(1), Ok(Address(1)));
    assert_eq!(Address::try_from(247), Ok(Address(247)));
}

#[test]
fn address_round_trip() {
    for value in [1u8, 2, 100, 247] {
        let a = Address::try_from(value).unwrap();
        let words = a.encode_for_write_registers();
        assert_eq!(words, words_of_f32(value as f32));
        assert_eq!(Address::decode_from_holding_registers(&words), Ok(a));
    }
    // a decoded value outside 1..=247 is unrecognized
    assert_eq!(
        Address::decode_from_holding_registers(&words_of_f32(0.0)),
        Err(Error::InvalidValue)
    );
    assert_eq!(
        Address::decode_from_holding_registers(&words_of_f32(300.0)),
        Err(Error::InvalidValue)
    );
}

#[test]
fn password_boundaries() {
    assert_eq!(Password::try_from(10000), Err(Error::PasswordOutOfRange(10000)));
    assert_eq!(Password::try_from(0), Ok(Password(0)));
    assert_eq!(Password::try_from(9999), Ok(Password(9999)));
}

#[test]
fn password_round_trip() {
    for value in [0u16, 1, 1000, 9999] {
        let p = Password::try_from(value).unwrap();
        let words = p.encode_for_write_registers();
        assert_eq!(words, words_of_f32(value as f32));
        assert_eq!(Password::decode_from_holding_registers(&words), Ok(p));
    }
}

#[test]
fn pulse_width_round_trip() {
    for value in [0u16, 35, 100, 65535] {
        let w = PulseWidth::try_from(value).unwrap();
        let words = w.encode_for_write_registers();
        assert_eq!(PulseWidth::decode_from_holding_registers(&words), Ok(w));
        assert_eq!(w.value(), value);
    }
}

#[test]
fn auto_scroll_time_boundaries() {
    assert_eq!(AutoScrollTime::try_from(0), Ok(AutoScrollTime(0)));
    assert_eq!(AutoScrollTime::try_from(60), Ok(AutoScrollTime(60)));
    assert_eq!(
        AutoScrollTime::try_from(61),
        Err(Error::AutoScrollTimeOutOfRange(61))
    );
}

#[test]
fn auto_scroll_time_round_trip() {
    for value in [0u8, 5, 60] {
        let t = AutoScrollTime::try_from(value).unwrap();
        let words = t.encode_for_write_registers();
        assert_eq!(AutoScrollTime::decode_from_holding_registers(&words), Ok(t));
    }
    assert_eq!(AutoScrollTime::decode(&words_of_f32(7.0)), Ok(7));
}

#[test]
fn backlight_time_sentinels_and_range() {
    // decode: 0 is "always on", 121 is "always off", 60 is a literal delay
    assert_eq!(
        BacklightTime::decode_from_holding_registers(&words_of_f32(0.0)),
        Ok(BacklightTime::AlwaysOn)
    );
    assert_eq!(
        BacklightTime::decode_from_holding_registers(&words_of_f32(121.0)),
        Ok(BacklightTime::AlwaysOff)
    );
    assert_eq!(
        BacklightTime::decode_from_holding_registers(&words_of_f32(60.0)),
        Ok(BacklightTime::Delayed(60))
    );
    assert_eq!(
        BacklightTime::decode_from_holding_registers(&words_of_f32(122.0)),
        Err(Error::InvalidValue)
    );
    // construction from a primitive follows the same sentinel-plus-range rule
    assert_eq!(BacklightTime::try_from(0), Ok(BacklightTime::AlwaysOn));
    assert_eq!(BacklightTime::try_from(121), Ok(BacklightTime::AlwaysOff));
    assert_eq!(BacklightTime::try_from(1), Ok(BacklightTime::Delayed(1)));
    assert_eq!(BacklightTime::try_from(120), Ok(BacklightTime::Delayed(120)));
    assert_eq!(
        BacklightTime::try_from(200),
        Err(Error::BacklitTimeOutOfRange(200))
    );
}

#[test]
fn backlight_time_round_trip() {
    for v in [
        BacklightTime::AlwaysOn,
        BacklightTime::AlwaysOff,
        BacklightTime::Delayed(1),
        BacklightTime::Delayed(60),
        BacklightTime::Delayed(120),
    ] {
        let words = v.encode_for_write_registers();
        assert_eq!(BacklightTime::decode_from_holding_registers(&words), Ok(v));
    }
}

#[test]
fn kppa_decode() {
    assert_eq!(
        KPPA::decode_from_holding_registers(&words_of_f32(0.0)),
        Ok(KPPA::NotAuthorized)
    );
    assert_eq!(
        KPPA::decode_from_holding_registers(&words_of_f32(1.0)),
        Ok(KPPA::Authorized)
    );
    assert_eq!(
        KPPA::decode_from_holding_registers(&words_of_f32(2.0)),
        Err(Error::InvalidValue)
    );
}

#[test]
fn kppa_write_is_a_password_write() {
    let password = Password::try_from(1234).unwrap();
    assert_eq!(
        KPPA::encode_for_write_registers(password),
        password.encode_for_write_registers()
    );
}

#[test]
fn reset_historical_data_fixed_word() {
    assert_eq!(ResetHistoricalData::encode_for_write_registers(), vec![0x0003]);
}

#[test]
fn identity_registers() {
    assert_eq!(
        SerialNumber::decode_from_holding_registers(&[0x1234, 0x5678]),
        Ok(SerialNumber(0x12345678))
    );
    assert_eq!(
        SerialNumber::decode_from_holding_registers(&[0x1234]),
        Err(Error::WordsCountError)
    );
    assert_eq!(
        MeterCode::decode_from_holding_registers(&[0x0089]),
        Ok(MeterCode(0x0089))
    );
    let v = SoftwareVersion::decode_from_holding_registers(&[0x0102]).unwrap();
    assert_eq!(v.major(), 1);
    assert_eq!(v.minor(), 2);
}

#[test]
fn default_values() {
    assert_eq!(SystemType::default(), SystemType::Type3P4W);
    assert_eq!(PulseWidth::default(), PulseWidth(100));
    assert_eq!(ParityAndStopBit::default(), ParityAndStopBit::NoParityOneStopBit);
    assert_eq!(Address::default(), Address(1));
    assert_eq!(PulseConstant::default(), PulseConstant::PC1000);
    assert_eq!(Password::default(), Password(1000));
    assert_eq!(BaudRate::default(), BaudRate::B9600);
    assert_eq!(AutoScrollTime::default(), AutoScrollTime(5));
    assert_eq!(BacklightTime::default(), BacklightTime::Delayed(60));
    assert_eq!(PulseEnergyType::default(), PulseEnergyType::TotalActiveEnergy);
}
