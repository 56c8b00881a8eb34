//! Batch accessor: bounded multi-register reads sliced into typed values.
//!
//! The device limits every request to 30 parameters, and its registers are
//! not contiguous across the whole address space. A full read is therefore
//! split into a few address-contiguous spans, each fetched in one transport
//! call; every field is then sliced out of the combined buffer at
//! `field address - span offset` and decoded on its own. The slicing
//! arithmetic and the decoding are what this module verifies; the transport
//! calls and the inter-request pacing stay with the caller.

use vstd::prelude::*;
use vstd::slice::slice_subrange;
use crate::codec::spec_words_to_u32;
use crate::error::Error;
use crate::protocol::{
    Address, AutoScrollTime, BacklightTime, BaudRate, KPPA, Measurement, MeterCode, ModbusParam,
    ParityAndStopBit, Password, PulseConstant, PulseEnergyType, PulseWidth, SerialNumber,
    SoftwareVersion, SystemType, Word,
};

verus! {

/// One address-contiguous transport request: `quantity` words starting at
/// register address `offset`.
#[derive(Debug, Clone, Copy, PartialEq, Eq, Structural)]
pub struct RegisterSpan {
    pub offset: u16,
    pub quantity: u16,
}

/// All the settings of the meter, as of one read operation: the mutable
/// configuration parameters plus the read-only identity fields.
#[derive(Debug, Clone, Copy, PartialEq, Eq, Structural)]
pub struct AllSettings {
    pub system_type: SystemType,
    pub pulse_width: PulseWidth,
    pub kppa: KPPA,
    pub parity_and_stop_bit: ParityAndStopBit,
    pub address: Address,
    pub pulse_constant: PulseConstant,
    pub password: Password,
    pub baud_rate: BaudRate,
    pub auto_scroll_time: AutoScrollTime,
    pub backlight_time: BacklightTime,
    pub pulse_energy_type: PulseEnergyType,
    pub serial_number: SerialNumber,
    pub meter_code: MeterCode,
    pub software_version: SoftwareVersion,
}

/// All the measured and calculated electrical quantities, as of one read
/// operation.
#[derive(Debug, Clone, Copy, PartialEq, Eq, Structural)]
pub struct AllValues {
    pub l1_voltage: Measurement,
    pub l2_voltage: Measurement,
    pub l3_voltage: Measurement,
    pub l1_current: Measurement,
    pub l2_current: Measurement,
    pub l3_current: Measurement,
    pub l1_power_active: Measurement,
    pub l2_power_active: Measurement,
    pub l3_power_active: Measurement,
    pub l1_power_apparent: Measurement,
    pub l2_power_apparent: Measurement,
    pub l3_power_apparent: Measurement,
    pub l1_power_reactive: Measurement,
    pub l2_power_reactive: Measurement,
    pub l3_power_reactive: Measurement,
    pub l1_power_factor: Measurement,
    pub l2_power_factor: Measurement,
    pub l3_power_factor: Measurement,
    pub ln_average_voltage: Measurement,
    pub ln_average_current: Measurement,
    pub total_line_current: Measurement,
    pub total_power: Measurement,
    pub total_power_apparent: Measurement,
    pub total_power_reactive: Measurement,
    pub total_power_factor: Measurement,
    pub frequency: Measurement,
    pub import_energy_active: Measurement,
    pub export_energy_active: Measurement,
    pub l1l2_voltage: Measurement,
    pub l2l3_voltage: Measurement,
    pub l3l1_voltage: Measurement,
    pub ll_average_voltage: Measurement,
    pub neutral_current: Measurement,
    pub total_energy_active: Measurement,
    pub total_energy_reactive: Measurement,
    pub resettable_total_energy_active: Measurement,
    pub resettable_total_energy_reactive: Measurement,
    pub resettable_import_energy_active: Measurement,
    pub resettable_export_energy_active: Measurement,
    pub net_kwh: Measurement,
    pub import_total_energy_active: Measurement,
    pub export_total_energy_active: Measurement,
}

/// The one contiguous span covering every settings register, from the
/// system type up to and including the pulse energy type. The identity
/// registers lie far outside it and are read one by one.
pub fn settings_batch_span() -> (r: RegisterSpan)
    ensures
        r.offset == 0x000A,
        r.quantity == 78,
{
    let offset = SystemType::address();
    let quantity = PulseEnergyType::address() - offset + PulseEnergyType::quantity();
    RegisterSpan { offset, quantity }
}

/// The four address-contiguous spans of the measurement registers: the
/// per-phase block, the line-to-line/neutral block, the energy-totals
/// block, and the import/export-totals block.
pub fn measurement_batch_spans() -> (r: Vec<RegisterSpan>)
    ensures
        r@.len() == 4,
        r@[0] == (RegisterSpan { offset: 0x0000, quantity: 76 }),
        r@[1] == (RegisterSpan { offset: 0x00C8, quantity: 26 }),
        r@[2] == (RegisterSpan { offset: 0x0156, quantity: 56 }),
        r@[3] == (RegisterSpan { offset: 0x0500, quantity: 4 }),
{
    let r = vec![
        RegisterSpan { offset: 0x0000, quantity: 76 },
        RegisterSpan { offset: 0x00C8, quantity: 26 },
        RegisterSpan { offset: 0x0156, quantity: 56 },
        RegisterSpan { offset: 0x0500, quantity: 4 },
    ];
    r
}

/// What slicing and decoding the settings span yields: each field is
/// decoded from its own word range `field address - span offset`, in
/// register order, and the first failure is the result. The three identity
/// values come from their own single-register reads and pass through.
pub open spec fn spec_decode_all_settings(
    rsp: Seq<u16>,
    serial_number: SerialNumber,
    meter_code: MeterCode,
    software_version: SoftwareVersion,
) -> Result<AllSettings, Error> {
    if rsp.len() != 78 {
        Err(Error::WordsCountError)
    } else {
        match SystemType::spec_decode(rsp.subrange(0, 2)) {
            Err(e) => Err(e),
            Ok(system_type) => match PulseWidth::spec_decode(rsp.subrange(2, 4)) {
                Err(e) => Err(e),
                Ok(pulse_width) => match KPPA::spec_decode(rsp.subrange(4, 6)) {
                    Err(e) => Err(e),
                    Ok(kppa) => match ParityAndStopBit::spec_decode(rsp.subrange(8, 10)) {
                        Err(e) => Err(e),
                        Ok(parity_and_stop_bit) => match Address::spec_decode(
                            rsp.subrange(10, 12),
                        ) {
                            Err(e) => Err(e),
                            Ok(address) => match PulseConstant::spec_decode(
                                rsp.subrange(12, 14),
                            ) {
                                Err(e) => Err(e),
                                Ok(pulse_constant) => match Password::spec_decode(
                                    rsp.subrange(14, 16),
                                ) {
                                    Err(e) => Err(e),
                                    Ok(password) => match BaudRate::spec_decode(
                                        rsp.subrange(18, 20),
                                    ) {
                                        Err(e) => Err(e),
                                        Ok(baud_rate) => match AutoScrollTime::spec_decode(
                                            rsp.subrange(48, 50),
                                        ) {
                                            Err(e) => Err(e),
                                            Ok(auto_scroll_time) => match BacklightTime::spec_decode(
                                                rsp.subrange(50, 52),
                                            ) {
                                                Err(e) => Err(e),
                                                Ok(backlight_time) => match PulseEnergyType::spec_decode(
                                                    rsp.subrange(76, 78),
                                                ) {
                                                    Err(e) => Err(e),
                                                    Ok(pulse_energy_type) => Ok(
                                                        AllSettings {
                                                            system_type,
                                                            pulse_width,
                                                            kppa,
                                                            parity_and_stop_bit,
                                                            address,
                                                            pulse_constant,
                                                            password,
                                                            baud_rate,
                                                            auto_scroll_time,
                                                            backlight_time,
                                                            pulse_energy_type,
                                                            serial_number,
                                                            meter_code,
                                                            software_version,
                                                        },
                                                    ),
                                                },
                                            },
                                        },
                                    },
                                },
                            },
                        },
                    },
                },
            },
        }
    }
}

/// Slices the combined settings buffer into the typed settings.
///
/// `rsp` is the response to the one read of `settings_batch_span()`; the
/// identity values come from their own reads and are passed in.
pub fn decode_all_settings(
    rsp: &[Word],
    serial_number: SerialNumber,
    meter_code: MeterCode,
    software_version: SoftwareVersion,
) -> (r: Result<AllSettings, Error>)
    ensures
        r == spec_decode_all_settings(rsp@, serial_number, meter_code, software_version),
{
    if rsp.len() != 78 {
        return Err(Error::WordsCountError);
    }
    let system_type = match SystemType::decode_from_holding_registers(
        slice_subrange(rsp, 0, 2),
    ) {
        Ok(v) => v,
        Err(e) => return Err(e),
    };
    let pulse_width = match PulseWidth::decode_from_holding_registers(
        slice_subrange(rsp, 2, 4),
    ) {
        Ok(v) => v,
        Err(e) => return Err(e),
    };
    let kppa = match KPPA::decode_from_holding_registers(slice_subrange(rsp, 4, 6)) {
        Ok(v) => v,
        Err(e) => return Err(e),
    };
    let parity_and_stop_bit = match ParityAndStopBit::decode_from_holding_registers(
        slice_subrange(rsp, 8, 10),
    ) {
        Ok(v) => v,
        Err(e) => return Err(e),
    };
    let address = match Address::decode_from_holding_registers(slice_subrange(rsp, 10, 12)) {
        Ok(v) => v,
        Err(e) => return Err(e),
    };
    let pulse_constant = match PulseConstant::decode_from_holding_registers(
        slice_subrange(rsp, 12, 14),
    ) {
        Ok(v) => v,
        Err(e) => return Err(e),
    };
    let password = match Password::decode_from_holding_registers(slice_subrange(rsp, 14, 16)) {
        Ok(v) => v,
        Err(e) => return Err(e),
    };
    let baud_rate = match BaudRate::decode_from_holding_registers(slice_subrange(rsp, 18, 20)) {
        Ok(v) => v,
        Err(e) => return Err(e),
    };
    let auto_scroll_time = match AutoScrollTime::decode_from_holding_registers(
        slice_subrange(rsp, 48, 50),
    ) {
        Ok(v) => v,
        Err(e) => return Err(e),
    };
    let backlight_time = match BacklightTime::decode_from_holding_registers(
        slice_subrange(rsp, 50, 52),
    ) {
        Ok(v) => v,
        Err(e) => return Err(e),
    };
    let pulse_energy_type = match PulseEnergyType::decode_from_holding_registers(
        slice_subrange(rsp, 76, 78),
    ) {
        Ok(v) => v,
        Err(e) => return Err(e),
    };
    Ok(
        AllSettings {
            system_type,
            pulse_width,
            kppa,
            parity_and_stop_bit,
            address,
            pulse_constant,
            password,
            baud_rate,
            auto_scroll_time,
            backlight_time,
            pulse_energy_type,
            serial_number,
            meter_code,
            software_version,
        },
    )
}

/// Batch slicing law for the settings span: whenever the combined buffer
/// decodes, every field equals the isolated single-field decode of its own
/// word range.
pub proof fn lemma_settings_batch_slicing(
    rsp: Seq<u16>,
    serial_number: SerialNumber,
    meter_code: MeterCode,
    software_version: SoftwareVersion,
)
    requires
        spec_decode_all_settings(rsp, serial_number, meter_code, software_version) is Ok,
    ensures
        ({
            let s = spec_decode_all_settings(
                rsp,
                serial_number,
                meter_code,
                software_version,
            )->Ok_0;
            &&& SystemType::spec_decode(rsp.subrange(0, 2)) == Ok::<_, Error>(s.system_type)
            &&& PulseWidth::spec_decode(rsp.subrange(2, 4)) == Ok::<_, Error>(s.pulse_width)
            &&& KPPA::spec_decode(rsp.subrange(4, 6)) == Ok::<_, Error>(s.kppa)
            &&& ParityAndStopBit::spec_decode(rsp.subrange(8, 10)) == Ok::<_, Error>(
                s.parity_and_stop_bit,
            )
            &&& Address::spec_decode(rsp.subrange(10, 12)) == Ok::<_, Error>(s.address)
            &&& PulseConstant::spec_decode(rsp.subrange(12, 14)) == Ok::<_, Error>(
                s.pulse_constant,
            )
            &&& Password::spec_decode(rsp.subrange(14, 16)) == Ok::<_, Error>(s.password)
            &&& BaudRate::spec_decode(rsp.subrange(18, 20)) == Ok::<_, Error>(s.baud_rate)
            &&& AutoScrollTime::spec_decode(rsp.subrange(48, 50)) == Ok::<_, Error>(
                s.auto_scroll_time,
            )
            &&& BacklightTime::spec_decode(rsp.subrange(50, 52)) == Ok::<_, Error>(
                s.backlight_time,
            )
            &&& PulseEnergyType::spec_decode(rsp.subrange(76, 78)) == Ok::<_, Error>(
                s.pulse_energy_type,
            )
            &&& s.serial_number == serial_number
            &&& s.meter_code == meter_code
            &&& s.software_version == software_version
        }),
{
}

/// What slicing the four measurement buffers yields: every field is the
/// raw bit pattern of its own two-word range `field address - span offset`.
/// Measurement decoding cannot fail on a two-word slice, so the only
/// failure is a buffer whose length does not match its span.
pub open spec fn spec_decode_all_values(
    rsp1: Seq<u16>,
    rsp2: Seq<u16>,
    rsp3: Seq<u16>,
    rsp4: Seq<u16>,
) -> Result<AllValues, Error> {
    if rsp1.len() == 76 && rsp2.len() == 26 && rsp3.len() == 56 && rsp4.len() == 4 {
        Ok(
            AllValues {
                l1_voltage: Measurement(spec_words_to_u32(rsp1.subrange(0, 2))),
                l2_voltage: Measurement(spec_words_to_u32(rsp1.subrange(2, 4))),
                l3_voltage: Measurement(spec_words_to_u32(rsp1.subrange(4, 6))),
                l1_current: Measurement(spec_words_to_u32(rsp1.subrange(6, 8))),
                l2_current: Measurement(spec_words_to_u32(rsp1.subrange(8, 10))),
                l3_current: Measurement(spec_words_to_u32(rsp1.subrange(10, 12))),
                l1_power_active: Measurement(spec_words_to_u32(rsp1.subrange(12, 14))),
                l2_power_active: Measurement(spec_words_to_u32(rsp1.subrange(14, 16))),
                l3_power_active: Measurement(spec_words_to_u32(rsp1.subrange(16, 18))),
                l1_power_apparent: Measurement(spec_words_to_u32(rsp1.subrange(18, 20))),
                l2_power_apparent: Measurement(spec_words_to_u32(rsp1.subrange(20, 22))),
                l3_power_apparent: Measurement(spec_words_to_u32(rsp1.subrange(22, 24))),
                l1_power_reactive: Measurement(spec_words_to_u32(rsp1.subrange(24, 26))),
                l2_power_reactive: Measurement(spec_words_to_u32(rsp1.subrange(26, 28))),
                l3_power_reactive: Measurement(spec_words_to_u32(rsp1.subrange(28, 30))),
                l1_power_factor: Measurement(spec_words_to_u32(rsp1.subrange(30, 32))),
                l2_power_factor: Measurement(spec_words_to_u32(rsp1.subrange(32, 34))),
                l3_power_factor: Measurement(spec_words_to_u32(rsp1.subrange(34, 36))),
                ln_average_voltage: Measurement(spec_words_to_u32(rsp1.subrange(42, 44))),
                ln_average_current: Measurement(spec_words_to_u32(rsp1.subrange(46, 48))),
                total_line_current: Measurement(spec_words_to_u32(rsp1.subrange(48, 50))),
                total_power: Measurement(spec_words_to_u32(rsp1.subrange(52, 54))),
                total_power_apparent: Measurement(spec_words_to_u32(rsp1.subrange(56, 58))),
                total_power_reactive: Measurement(spec_words_to_u32(rsp1.subrange(60, 62))),
                total_power_factor: Measurement(spec_words_to_u32(rsp1.subrange(62, 64))),
                frequency: Measurement(spec_words_to_u32(rsp1.subrange(70, 72))),
                import_energy_active: Measurement(spec_words_to_u32(rsp1.subrange(72, 74))),
                export_energy_active: Measurement(spec_words_to_u32(rsp1.subrange(74, 76))),
                l1l2_voltage: Measurement(spec_words_to_u32(rsp2.subrange(0, 2))),
                l2l3_voltage: Measurement(spec_words_to_u32(rsp2.subrange(2, 4))),
                l3l1_voltage: Measurement(spec_words_to_u32(rsp2.subrange(4, 6))),
                ll_average_voltage: Measurement(spec_words_to_u32(rsp2.subrange(6, 8))),
                neutral_current: Measurement(spec_words_to_u32(rsp2.subrange(24, 26))),
                total_energy_active: Measurement(spec_words_to_u32(rsp3.subrange(0, 2))),
                total_energy_reactive: Measurement(spec_words_to_u32(rsp3.subrange(2, 4))),
                resettable_total_energy_active: Measurement(
                    spec_words_to_u32(rsp3.subrange(42, 44)),
                ),
                resettable_total_energy_reactive: Measurement(
                    spec_words_to_u32(rsp3.subrange(44, 46)),
                ),
                resettable_import_energy_active: Measurement(
                    spec_words_to_u32(rsp3.subrange(46, 48)),
                ),
                resettable_export_energy_active: Measurement(
                    spec_words_to_u32(rsp3.subrange(48, 50)),
                ),
                net_kwh: Measurement(spec_words_to_u32(rsp3.subrange(54, 56))),
                import_total_energy_active: Measurement(spec_words_to_u32(rsp4.subrange(0, 2))),
                export_total_energy_active: Measurement(spec_words_to_u32(rsp4.subrange(2, 4))),
            },
        )
    } else {
        Err(Error::WordsCountError)
    }
}

/// The measurement whose two words start at index `i` of the buffer.
fn measurement_at(rsp: &[Word], i: usize) -> (r: Measurement)
    requires
        i + 2 <= rsp@.len(),
    ensures
        r == Measurement(spec_words_to_u32(rsp@.subrange(i as int, i as int + 2))),
{
    let bits = (rsp[i] as u32) * 0x1_0000 + (rsp[i + 1] as u32);
    proof {
        let sub = rsp@.subrange(i as int, i as int + 2);
        assert(sub[0] == rsp@[i as int]);
        assert(sub[1] == rsp@[i as int + 1]);
    }
    Measurement(bits)
}

/// Slices the four combined measurement buffers into the typed values.
///
/// `rsp1` to `rsp4` are the responses to the four reads of
/// `measurement_batch_spans()`, in order.
pub fn decode_all_values(
    rsp1: &[Word],
    rsp2: &[Word],
    rsp3: &[Word],
    rsp4: &[Word],
) -> (r: Result<AllValues, Error>)
    ensures
        r == spec_decode_all_values(rsp1@, rsp2@, rsp3@, rsp4@),
{
    if rsp1.len() != 76 || rsp2.len() != 26 || rsp3.len() != 56 || rsp4.len() != 4 {
        return Err(Error::WordsCountError);
    }
    Ok(
        AllValues {
            l1_voltage: measurement_at(rsp1, 0),
            l2_voltage: measurement_at(rsp1, 2),
            l3_voltage: measurement_at(rsp1, 4),
            l1_current: measurement_at(rsp1, 6),
            l2_current: measurement_at(rsp1, 8),
            l3_current: measurement_at(rsp1, 10),
            l1_power_active: measurement_at(rsp1, 12),
            l2_power_active: measurement_at(rsp1, 14),
            l3_power_active: measurement_at(rsp1, 16),
            l1_power_apparent: measurement_at(rsp1, 18),
            l2_power_apparent: measurement_at(rsp1, 20),
            l3_power_apparent: measurement_at(rsp1, 22),
            l1_power_reactive: measurement_at(rsp1, 24),
            l2_power_reactive: measurement_at(rsp1, 26),
            l3_power_reactive: measurement_at(rsp1, 28),
            l1_power_factor: measurement_at(rsp1, 30),
            l2_power_factor: measurement_at(rsp1, 32),
            l3_power_factor: measurement_at(rsp1, 34),
            ln_average_voltage: measurement_at(rsp1, 42),
            ln_average_current: measurement_at(rsp1, 46),
            total_line_current: measurement_at(rsp1, 48),
            total_power: measurement_at(rsp1, 52),
            total_power_apparent: measurement_at(rsp1, 56),
            total_power_reactive: measurement_at(rsp1, 60),
            total_power_factor: measurement_at(rsp1, 62),
            frequency: measurement_at(rsp1, 70),
            import_energy_active: measurement_at(rsp1, 72),
            export_energy_active: measurement_at(rsp1, 74),
            l1l2_voltage: measurement_at(rsp2, 0),
            l2l3_voltage: measurement_at(rsp2, 2),
            l3l1_voltage: measurement_at(rsp2, 4),
            ll_average_voltage: measurement_at(rsp2, 6),
            neutral_current: measurement_at(rsp2, 24),
            total_energy_active: measurement_at(rsp3, 0),
            total_energy_reactive: measurement_at(rsp3, 2),
            resettable_total_energy_active: measurement_at(rsp3, 42),
            resettable_total_energy_reactive: measurement_at(rsp3, 44),
            resettable_import_energy_active: measurement_at(rsp3, 46),
            resettable_export_energy_active: measurement_at(rsp3, 48),
            net_kwh: measurement_at(rsp3, 54),
            import_total_energy_active: measurement_at(rsp4, 0),
            export_total_energy_active: measurement_at(rsp4, 2),
        },
    )
}

/// Batch slicing law for the measurement spans: whenever the combined
/// buffers decode, every field equals the isolated single-field decode of
/// its own word range.
pub proof fn lemma_values_batch_slicing(
    rsp1: Seq<u16>,
    rsp2: Seq<u16>,
    rsp3: Seq<u16>,
    rsp4: Seq<u16>,
)
    requires
        spec_decode_all_values(rsp1, rsp2, rsp3, rsp4) is Ok,
    ensures
        ({
            let v = spec_decode_all_values(rsp1, rsp2, rsp3, rsp4)->Ok_0;
            &&& Measurement::spec_decode(rsp1.subrange(0, 2)) == Ok::<_, Error>(v.l1_voltage)
            &&& Measurement::spec_decode(rsp1.subrange(2, 4)) == Ok::<_, Error>(v.l2_voltage)
            &&& Measurement::spec_decode(rsp1.subrange(4, 6)) == Ok::<_, Error>(v.l3_voltage)
            &&& Measurement::spec_decode(rsp1.subrange(6, 8)) == Ok::<_, Error>(v.l1_current)
            &&& Measurement::spec_decode(rsp1.subrange(8, 10)) == Ok::<_, Error>(v.l2_current)
            &&& Measurement::spec_decode(rsp1.subrange(10, 12)) == Ok::<_, Error>(v.l3_current)
            &&& Measurement::spec_decode(rsp1.subrange(12, 14)) == Ok::<_, Error>(
                v.l1_power_active,
            )
            &&& Measurement::spec_decode(rsp1.subrange(14, 16)) == Ok::<_, Error>(
                v.l2_power_active,
            )
            &&& Measurement::spec_decode(rsp1.subrange(16, 18)) == Ok::<_, Error>(
                v.l3_power_active,
            )
            &&& Measurement::spec_decode(rsp1.subrange(18, 20)) == Ok::<_, Error>(
                v.l1_power_apparent,
            )
            &&& Measurement::spec_decode(rsp1.subrange(20, 22)) == Ok::<_, Error>(
                v.l2_power_apparent,
            )
            &&& Measurement::spec_decode(rsp1.subrange(22, 24)) == Ok::<_, Error>(
                v.l3_power_apparent,
            )
            &&& Measurement::spec_decode(rsp1.subrange(24, 26)) == Ok::<_, Error>(
                v.l1_power_reactive,
            )
            &&& Measurement::spec_decode(rsp1.subrange(26, 28)) == Ok::<_, Error>(
                v.l2_power_reactive,
            )
            &&& Measurement::spec_decode(rsp1.subrange(28, 30)) == Ok::<_, Error>(
                v.l3_power_reactive,
            )
            &&& Measurement::spec_decode(rsp1.subrange(30, 32)) == Ok::<_, Error>(
                v.l1_power_factor,
            )
            &&& Measurement::spec_decode(rsp1.subrange(32, 34)) == Ok::<_, Error>(
                v.l2_power_factor,
            )
            &&& Measurement::spec_decode(rsp1.subrange(34, 36)) == Ok::<_, Error>(
                v.l3_power_factor,
            )
            &&& Measurement::spec_decode(rsp1.subrange(42, 44)) == Ok::<_, Error>(
                v.ln_average_voltage,
            )
            &&& Measurement::spec_decode(rsp1.subrange(46, 48)) == Ok::<_, Error>(
                v.ln_average_current,
            )
            &&& Measurement::spec_decode(rsp1.subrange(48, 50)) == Ok::<_, Error>(
                v.total_line_current,
            )
            &&& Measurement::spec_decode(rsp1.subrange(52, 54)) == Ok::<_, Error>(v.total_power)
            &&& Measurement::spec_decode(rsp1.subrange(56, 58)) == Ok::<_, Error>(
                v.total_power_apparent,
            )
            &&& Measurement::spec_decode(rsp1.subrange(60, 62)) == Ok::<_, Error>(
                v.total_power_reactive,
            )
            &&& Measurement::spec_decode(rsp1.subrange(62, 64)) == Ok::<_, Error>(
                v.total_power_factor,
            )
            &&& Measurement::spec_decode(rsp1.subrange(70, 72)) == Ok::<_, Error>(v.frequency)
            &&& Measurement::spec_decode(rsp1.subrange(72, 74)) == Ok::<_, Error>(
                v.import_energy_active,
            )
            &&& Measurement::spec_decode(rsp1.subrange(74, 76)) == Ok::<_, Error>(
                v.export_energy_active,
            )
            &&& Measurement::spec_decode(rsp2.subrange(0, 2)) == Ok::<_, Error>(v.l1l2_voltage)
            &&& Measurement::spec_decode(rsp2.subrange(2, 4)) == Ok::<_, Error>(v.l2l3_voltage)
            &&& Measurement::spec_decode(rsp2.subrange(4, 6)) == Ok::<_, Error>(v.l3l1_voltage)
            &&& Measurement::spec_decode(rsp2.subrange(6, 8)) == Ok::<_, Error>(
                v.ll_average_voltage,
            )
            &&& Measurement::spec_decode(rsp2.subrange(24, 26)) == Ok::<_, Error>(
                v.neutral_current,
            )
            &&& Measurement::spec_decode(rsp3.subrange(0, 2)) == Ok::<_, Error>(
                v.total_energy_active,
            )
            &&& Measurement::spec_decode(rsp3.subrange(2, 4)) == Ok::<_, Error>(
                v.total_energy_reactive,
            )
            &&& Measurement::spec_decode(rsp3.subrange(42, 44)) == Ok::<_, Error>(
                v.resettable_total_energy_active,
            )
            &&& Measurement::spec_decode(rsp3.subrange(44, 46)) == Ok::<_, Error>(
                v.resettable_total_energy_reactive,
            )
            &&& Measurement::spec_decode(rsp3.subrange(46, 48)) == Ok::<_, Error>(
                v.resettable_import_energy_active,
            )
            &&& Measurement::spec_decode(rsp3.subrange(48, 50)) == Ok::<_, Error>(
                v.resettable_export_energy_active,
            )
            &&& Measurement::spec_decode(rsp3.subrange(54, 56)) == Ok::<_, Error>(v.net_kwh)
            &&& Measurement::spec_decode(rsp4.subrange(0, 2)) == Ok::<_, Error>(
                v.import_total_energy_active,
            )
            &&& Measurement::spec_decode(rsp4.subrange(2, 4)) == Ok::<_, Error>(
                v.export_total_energy_active,
            )
        }),
{
}

} // verus!
