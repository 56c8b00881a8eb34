use sdm72_lib::batch::{
    decode_all_settings, decode_all_values, measurement_batch_spans, settings_batch_span,
};
use sdm72_lib::error::Error;
use sdm72_lib::protocol::{
    Address, AutoScrollTime, BacklightTime, BaudRate, KPPA, Measurement, MeterCode,
    ParityAndStopBit, Password, PulseConstant, PulseEnergyType, PulseWidth, SerialNumber,
    SoftwareVersion, SystemType,
};

fn put_f32(buf: &mut [u16], i: usize, x: f32) {
    let bits = x.to_bits();
    buf[i] = (bits >> 16) as u16;
    buf[i + 1] = (bits & 0xFFFF) as u16;
}

fn settings_buffer() -> Vec<u16> {
    let mut rsp = vec![0u16; 78];
    put_f32(&mut rsp, 0, 3.0); // system type: 3 phase 4 wire
    put_f32(&mut rsp, 2, 100.0); // pulse width
    put_f32(&mut rsp, 4, 1.0); // KPPA: authorized
    put_f32(&mut rsp, 8, 0.0); // parity: no parity one stop bit
    put_f32(&mut rsp, 10, 5.0); // RS-485 address
    put_f32(&mut rsp, 12, 0.0); // pulse constant: 1000 imp/kWh
    put_f32(&mut rsp, 14, 1000.0); // password
    put_f32(&mut rsp, 18, 2.0); // baud rate code: 9600
    put_f32(&mut rsp, 48, 5.0); // auto scroll time
    put_f32(&mut rsp, 50, 60.0); // backlight time
    put_f32(&mut rsp, 76, 2.0); // pulse energy type: total active energy
    rsp
}

#[test]
fn settings_batch_decodes_each_field() {
    let rsp = settings_buffer();
    let s = decode_all_settings(
        &rsp,
        SerialNumber(0x12345678),
        MeterCode(0x0089),
        SoftwareVersion(0x0102),
    )
    .unwrap();
    assert_eq!(s.system_type, SystemType::Type3P4W);
    assert_eq!(s.pulse_width, PulseWidth(100));
    assert_eq!(s.kppa, KPPA::Authorized);
    assert_eq!(s.parity_and_stop_bit, ParityAndStopBit::NoParityOneStopBit);
    assert_eq!(s.address, Address(5));
    assert_eq!(s.pulse_constant, PulseConstant::PC1000);
    assert_eq!(s.password, Password(1000));
    assert_eq!(s.baud_rate, BaudRate::B9600);
    assert_eq!(s.auto_scroll_time, AutoScrollTime(5));
    assert_eq!(s.backlight_time, BacklightTime::Delayed(60));
    assert_eq!(s.pulse_energy_type, PulseEnergyType::TotalActiveEnergy);
    assert_eq!(s.serial_number, SerialNumber(0x12345678));
    assert_eq!(s.meter_code, MeterCode(0x0089));
    assert_eq!(s.software_version, SoftwareVersion(0x0102));
}

#[test]
fn settings_batch_slicing_matches_isolated_decodes() {
    let rsp = settings_buffer();
    let s = decode_all_settings(
        &rsp,
        SerialNumber(1),
        MeterCode(2),
        SoftwareVersion(3),
    )
    .unwrap();
    // slicing by each field's declared address offset yields the same value
    // as an isolated single-field decode of the corresponding word range
    assert_eq!(
        Ok(s.system_type),
        SystemType::decode_from_holding_registers(&rsp[0..2])
    );
    assert_eq!(
        Ok(s.pulse_width),
        PulseWidth::decode_from_holding_registers(&rsp[2..4])
    );
    assert_eq!(Ok(s.kppa), KPPA::decode_from_holding_registers(&rsp[4..6]));
    assert_eq!(
        Ok(s.parity_and_stop_bit),
        ParityAndStopBit::decode_from_holding_registers(&rsp[8..10])
    );
    assert_eq!(
        Ok(s.address),
        Address::decode_from_holding_registers(&rsp[10..12])
    );
    assert_eq!(
        Ok(s.pulse_constant),
        PulseConstant::decode_from_holding_registers(&rsp[12..14])
    );
    assert_eq!(
        Ok(s.password),
        Password::decode_from_holding_registers(&rsp[14..16])
    );
    assert_eq!(
        Ok(s.baud_rate),
        BaudRate::decode_from_holding_registers(&rsp[18..20])
    );
    assert_eq!(
        Ok(s.auto_scroll_time),
        AutoScrollTime::decode_from_holding_registers(&rsp[48..50])
    );
    assert_eq!(
        Ok(s.backlight_time),
        BacklightTime::decode_from_holding_registers(&rsp[50..52])
    );
    assert_eq!(
        Ok(s.pulse_energy_type),
        PulseEnergyType::decode_from_holding_registers(&rsp[76..78])
    );
}

#[test]
fn settings_batch_rejects_wrong_length() {
    let rsp = vec![0u16; 77];
    assert_eq!(
        decode_all_settings(&rsp, SerialNumber(0), MeterCode(0), SoftwareVersion(0)),
        Err(Error::WordsCountError)
    );
}

#[test]
fn settings_batch_propagates_field_errors() {
    let mut rsp = settings_buffer();
    put_f32(&mut rsp, 18, 7.0); // 7 is no baud rate code
    assert_eq!(
        decode_all_settings(&rsp, SerialNumber(0), MeterCode(0), SoftwareVersion(0)),
        Err(Error::InvalidValue)
    );
}

fn values_buffers() -> (Vec<u16>, Vec<u16>, Vec<u16>, Vec<u16>) {
    let mut rsp1 = vec![0u16; 76];
    let mut rsp2 = vec![0u16; 26];
    let mut rsp3 = vec![0u16; 56];
    let mut rsp4 = vec![0u16; 4];
    for i in 0..38 {
        put_f32(&mut rsp1, 2 * i, i as f32 * 1.5);
    }
    for i in 0..13 {
        put_f32(&mut rsp2, 2 * i, 400.0 + i as f32);
    }
    for i in 0..28 {
        put_f32(&mut rsp3, 2 * i, 0.25 * i as f32);
    }
    put_f32(&mut rsp4, 0, 12.75);
    put_f32(&mut rsp4, 2, -3.5);
    (rsp1, rsp2, rsp3, rsp4)
}

#[test]
fn values_batch_slicing_matches_isolated_decodes() {
    let (rsp1, rsp2, rsp3, rsp4) = values_buffers();
    let v = decode_all_values(&rsp1, &rsp2, &rsp3, &rsp4).unwrap();
    assert_eq!(
        Ok(v.l1_voltage),
        Measurement::decode_from_input_register(&rsp1[0..2])
    );
    assert_eq!(
        Ok(v.l3_power_factor),
        Measurement::decode_from_input_register(&rsp1[34..36])
    );
    assert_eq!(
        Ok(v.export_energy_active),
        Measurement::decode_from_input_register(&rsp1[74..76])
    );
    assert_eq!(
        Ok(v.l1l2_voltage),
        Measurement::decode_from_input_register(&rsp2[0..2])
    );
    assert_eq!(
        Ok(v.neutral_current),
        Measurement::decode_from_input_register(&rsp2[24..26])
    );
    assert_eq!(
        Ok(v.total_energy_active),
        Measurement::decode_from_input_register(&rsp3[0..2])
    );
    assert_eq!(
        Ok(v.net_kwh),
        Measurement::decode_from_input_register(&rsp3[54..56])
    );
    assert_eq!(
        Ok(v.import_total_energy_active),
        Measurement::decode_from_input_register(&rsp4[0..2])
    );
    assert_eq!(
        Ok(v.export_total_energy_active),
        Measurement::decode_from_input_register(&rsp4[2..4])
    );
}

#[test]
fn values_batch_keeps_full_precision() {
    let (rsp1, rsp2, rsp3, rsp4) = values_buffers();
    let v = decode_all_values(&rsp1, &rsp2, &rsp3, &rsp4).unwrap();
    assert_eq!(f32::from_bits(v.l1_voltage.bits()), 0.0);
    assert_eq!(f32::from_bits(v.l2_voltage.bits()), 1.5);
    assert_eq!(f32::from_bits(v.l1l2_voltage.bits()), 400.0);
    assert_eq!(f32::from_bits(v.import_total_energy_active.bits()), 12.75);
    assert_eq!(f32::from_bits(v.export_total_energy_active.bits()), -3.5);
}

#[test]
fn values_batch_rejects_wrong_length() {
    let (rsp1, rsp2, rsp3, _) = values_buffers();
    let short = vec![0u16; 3];
    assert_eq!(
        decode_all_values(&rsp1, &rsp2, &rsp3, &short),
        Err(Error::WordsCountError)
    );
}

#[test]
fn batch_spans_match_the_register_map() {
    let s = settings_batch_span();
    assert_eq!(s.offset, 0x000A);
    assert_eq!(s.quantity, 78);
    let spans = measurement_batch_spans();
    assert_eq!(spans.len(), 4);
    assert_eq!((spans[0].offset, spans[0].quantity), (0x0000, 76));
    assert_eq!((spans[1].offset, spans[1].quantity), (0x00C8, 26));
    assert_eq!((spans[2].offset, spans[2].quantity), (0x0156, 56));
    assert_eq!((spans[3].offset, spans[3].quantity), (0x0500, 4));
}
