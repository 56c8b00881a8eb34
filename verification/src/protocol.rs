//! The SDM72 register map: typed domain values and their wire encodings.
//!
//! Every settings register travels as a 32-bit single-precision number in
//! two big-endian words, even when the stored value is a small integer;
//! read-only identity registers carry raw 16/32-bit integers. Enumerated
//! settings map variants to device-specific numeric codes that are not
//! ordinal positions, so each mapping is written as an explicit table in
//! both directions.

use vstd::prelude::*;
use crate::codec::{
    decode_uint, encode_uint, ieee_value, lemma_uint_roundtrip, spec_decode_uint,
    spec_encode_uint, spec_words_to_u32, words_to_u32,
};
use crate::error::Error;

verus! {

/// 16-bit value stored in a Modbus register.
pub type Word = u16;

/// Common interface of a Modbus parameter: its holding-register address and
/// the number of 16-bit words it occupies.
pub trait ModbusParam: Sized {
    /// The Modbus holding register address.
    spec fn spec_address() -> u16;

    /// The quantity of Modbus words; the length in bytes is twice this.
    spec fn spec_quantity() -> u16;

    /// The Modbus holding register address.
    fn address() -> (r: u16)
        ensures
            r == Self::spec_address(),
    ;

    /// The quantity of Modbus words.
    fn quantity() -> (r: u16)
        ensures
            r == Self::spec_quantity(),
    ;
}

// ---------------------------------------------------------------------------
// System (wiring) type
// ---------------------------------------------------------------------------

/// The system (wiring) type.
///
/// Changing it requires the authorization gate ([`KPPA`]) to be satisfied.
#[derive(Debug, Clone, Copy, PartialEq, Eq, Structural)]
pub enum SystemType {
    /// 1 phase with 2 wire
    Type1P2W,
    /// 3 phase with 4 wire
    Type3P4W,
}

impl ModbusParam for SystemType {
    open spec fn spec_address() -> u16 {
        0x000A
    }

    open spec fn spec_quantity() -> u16 {
        2
    }

    fn address() -> u16 {
        0x000A
    }

    fn quantity() -> u16 {
        2
    }
}

impl Default for SystemType {
    fn default() -> (r: Self)
        ensures
            r == SystemType::Type3P4W,
    {
        SystemType::Type3P4W
    }
}

impl SystemType {
    /// The numeric code the device stores for this wiring type.
    pub open spec fn spec_code(self) -> u16 {
        match self {
            SystemType::Type1P2W => 1,
            SystemType::Type3P4W => 3,
        }
    }

    /// The wiring type a numeric code stands for, if any.
    pub open spec fn spec_from_code(code: u16) -> Option<SystemType> {
        if code == 1 {
            Some(SystemType::Type1P2W)
        } else if code == 3 {
            Some(SystemType::Type3P4W)
        } else {
            None
        }
    }

    /// What decoding a word sequence yields.
    pub open spec fn spec_decode(words: Seq<u16>) -> Result<SystemType, Error> {
        match spec_decode_uint(words) {
            Ok(n) => match Self::spec_from_code(n) {
                Some(v) => Ok(v),
                None => Err(Error::InvalidValue),
            },
            Err(e) => Err(e),
        }
    }

    /// The word sequence this value encodes to.
    pub open spec fn spec_encode(self) -> Seq<u16> {
        spec_encode_uint(self.spec_code())
    }

    pub fn decode_from_holding_registers(words: &[Word]) -> (r: Result<Self, Error>)
        ensures
            r == Self::spec_decode(words@),
    {
        match decode_uint(words) {
            Ok(n) => {
                if n == 1 {
                    Ok(SystemType::Type1P2W)
                } else if n == 3 {
                    Ok(SystemType::Type3P4W)
                } else {
                    Err(Error::InvalidValue)
                }
            },
            Err(e) => Err(e),
        }
    }

    pub fn encode_for_write_registers(&self) -> (r: Vec<Word>)
        ensures
            r@ == self.spec_encode(),
    {
        let code: u16 = match self {
            SystemType::Type1P2W => 1,
            SystemType::Type3P4W => 3,
        };
        encode_uint(code)
    }

    /// Round-trip law: decoding an encoded wiring type yields it back.
    pub proof fn lemma_roundtrip(self)
        ensures
            Self::spec_decode(self.spec_encode()) == Ok::<Self, Error>(self),
    {
        lemma_uint_roundtrip(self.spec_code());
    }
}

// ---------------------------------------------------------------------------
// Pulse width
// ---------------------------------------------------------------------------

/// Pulse width for the pulse output in milliseconds.
///
/// If the pulse constant is 1000 imp/kWh the device fixes the width to 35 ms.
#[derive(Debug, Clone, Copy, PartialEq, Eq, Structural)]
pub struct PulseWidth(pub u16);

impl ModbusParam for PulseWidth {
    open spec fn spec_address() -> u16 {
        0x000C
    }

    open spec fn spec_quantity() -> u16 {
        2
    }

    fn address() -> u16 {
        0x000C
    }

    fn quantity() -> u16 {
        2
    }
}

impl Default for PulseWidth {
    fn default() -> (r: Self)
        ensures
            r == PulseWidth(100u16),
    {
        PulseWidth(100)
    }
}

impl PulseWidth {
    /// What decoding a word sequence yields.
    pub open spec fn spec_decode(words: Seq<u16>) -> Result<PulseWidth, Error> {
        match spec_decode_uint(words) {
            Ok(n) => Ok(PulseWidth(n)),
            Err(e) => Err(e),
        }
    }

    /// The word sequence this value encodes to.
    pub open spec fn spec_encode(self) -> Seq<u16> {
        spec_encode_uint(self.0)
    }

    pub fn decode_from_holding_registers(words: &[Word]) -> (r: Result<Self, Error>)
        ensures
            r == Self::spec_decode(words@),
    {
        match decode_uint(words) {
            Ok(n) => Ok(PulseWidth(n)),
            Err(e) => Err(e),
        }
    }

    pub fn encode_for_write_registers(&self) -> (r: Vec<Word>)
        ensures
            r@ == self.spec_encode(),
    {
        encode_uint(self.0)
    }

    /// Any 16-bit width is accepted; the device itself constrains usable values.
    pub fn try_from(value: u16) -> (r: Result<Self, Error>)
        ensures
            r == Ok::<Self, Error>(PulseWidth(value)),
    {
        Ok(PulseWidth(value))
    }

    /// The stored width in milliseconds.
    pub fn value(&self) -> (r: u16)
        ensures
            r == self.0,
    {
        self.0
    }

    /// Round-trip law: decoding an encoded pulse width yields it back.
    pub proof fn lemma_roundtrip(self)
        ensures
            Self::spec_decode(self.spec_encode()) == Ok::<Self, Error>(self),
    {
        lemma_uint_roundtrip(self.0);
    }
}

// ---------------------------------------------------------------------------
// KPPA (authorization gate state)
// ---------------------------------------------------------------------------

/// KPPA (Key Parameter Programming Authorization): the device-held gate that
/// must read `Authorized` before any settings-mutating write.
///
/// The register is asymmetric: reading yields the authorization state;
/// writing takes
/// a [`Password`] value, which the device compares against its stored
/// password to grant access. The state is owned by the device and may be
/// revoked at any time, so callers must re-read it before every mutating
/// command instead of caching it.
#[derive(Debug, Clone, Copy, PartialEq, Eq, Structural)]
pub enum KPPA {
    NotAuthorized,
    Authorized,
}

impl ModbusParam for KPPA {
    open spec fn spec_address() -> u16 {
        0x000E
    }

    open spec fn spec_quantity() -> u16 {
        2
    }

    fn address() -> u16 {
        0x000E
    }

    fn quantity() -> u16 {
        2
    }
}

impl KPPA {
    /// The numeric code the device reports for this state.
    pub open spec fn spec_code(self) -> u16 {
        match self {
            KPPA::NotAuthorized => 0,
            KPPA::Authorized => 1,
        }
    }

    /// The state a numeric code stands for, if any.
    pub open spec fn spec_from_code(code: u16) -> Option<KPPA> {
        if code == 0 {
            Some(KPPA::NotAuthorized)
        } else if code == 1 {
            Some(KPPA::Authorized)
        } else {
            None
        }
    }

    /// What decoding a word sequence yields.
    pub open spec fn spec_decode(words: Seq<u16>) -> Result<KPPA, Error> {
        match spec_decode_uint(words) {
            Ok(n) => match Self::spec_from_code(n) {
                Some(v) => Ok(v),
                None => Err(Error::InvalidValue),
            },
            Err(e) => Err(e),
        }
    }

    pub fn decode_from_holding_registers(words: &[Word]) -> (r: Result<Self, Error>)
        ensures
            r == Self::spec_decode(words@),
    {
        match decode_uint(words) {
            Ok(n) => {
                if n == 0 {
                    Ok(KPPA::NotAuthorized)
                } else if n == 1 {
                    Ok(KPPA::Authorized)
                } else {
                    Err(Error::InvalidValue)
                }
            },
            Err(e) => Err(e),
        }
    }

    /// Writing the authorization register sends a password, not a state:
    /// the words are exactly the password's encoding.
    pub fn encode_for_write_registers(password: Password) -> (r: Vec<Word>)
        ensures
            r@ == password.spec_encode(),
    {
        password.encode_for_write_registers()
    }

    /// True when the authorization state blocks settings writes, so a
    /// password grant is
    /// needed before the next mutating command.
    pub fn grant_required(&self) -> (r: bool)
        ensures
            r <==> (*self is NotAuthorized),
    {
        match self {
            KPPA::NotAuthorized => true,
            KPPA::Authorized => false,
        }
    }

    /// Round-trip law: decoding an encoded gate state yields it back.
    /// (The state itself is never written; this speaks of the read path.)
    pub proof fn lemma_roundtrip(self)
        ensures
            Self::spec_decode(spec_encode_uint(self.spec_code())) == Ok::<Self, Error>(self),
    {
        lemma_uint_roundtrip(self.spec_code());
    }
}

/// A settings write is permitted only in the `Authorized` state.
pub open spec fn settings_write_allowed(state: KPPA) -> bool {
    state is Authorized
}

/// Authorization gate for a mutating command: releases the register words of
/// a settings write only when the state read from the device allows it.
/// A correctly-composed caller routes every mutating write through this
/// check, so no write is ever attempted while the state is `NotAuthorized`.
///
/// The check-then-act sequence is not atomic at the protocol level: the
/// device owns the state and may revoke it between the read and the write,
/// in which case the write itself fails at the device.
pub fn gate_settings_write(state: &KPPA, words: Vec<Word>) -> (r: Option<Vec<Word>>)
    ensures
        r is Some <==> settings_write_allowed(*state),
        r matches Some(w) ==> w@ == words@,
{
    match state {
        KPPA::Authorized => Some(words),
        KPPA::NotAuthorized => None,
    }
}

// ---------------------------------------------------------------------------
// Parity and stop bits
// ---------------------------------------------------------------------------

/// Parity and stop bits of the Modbus RTU protocol for the RS-485 port.
///
/// Changing it requires the authorization gate ([`KPPA`]) to be satisfied.
#[derive(Debug, Clone, Copy, PartialEq, Eq, Structural)]
pub enum ParityAndStopBit {
    /// no parity, one stop bit
    NoParityOneStopBit,
    /// even parity, one stop bit
    EvenParityOneStopBit,
    /// odd parity, one stop bit
    OddParityOneStopBit,
    /// no parity, two stop bits
    NoParityTwoStopBits,
}

impl ModbusParam for ParityAndStopBit {
    open spec fn spec_address() -> u16 {
        0x0012
    }

    open spec fn spec_quantity() -> u16 {
        2
    }

    fn address() -> u16 {
        0x0012
    }

    fn quantity() -> u16 {
        2
    }
}

impl Default for ParityAndStopBit {
    fn default() -> (r: Self)
        ensures
            r == ParityAndStopBit::NoParityOneStopBit,
    {
        ParityAndStopBit::NoParityOneStopBit
    }
}

impl ParityAndStopBit {
    /// The numeric code the device stores for this mode.
    pub open spec fn spec_code(self) -> u16 {
        match self {
            ParityAndStopBit::NoParityOneStopBit => 0,
            ParityAndStopBit::EvenParityOneStopBit => 1,
            ParityAndStopBit::OddParityOneStopBit => 2,
            ParityAndStopBit::NoParityTwoStopBits => 3,
        }
    }

    /// The mode a numeric code stands for, if any.
    pub open spec fn spec_from_code(code: u16) -> Option<ParityAndStopBit> {
        if code == 0 {
            Some(ParityAndStopBit::NoParityOneStopBit)
        } else if code == 1 {
            Some(ParityAndStopBit::EvenParityOneStopBit)
        } else if code == 2 {
            Some(ParityAndStopBit::OddParityOneStopBit)
        } else if code == 3 {
            Some(ParityAndStopBit::NoParityTwoStopBits)
        } else {
            None
        }
    }

    /// What decoding a word sequence yields.
    pub open spec fn spec_decode(words: Seq<u16>) -> Result<ParityAndStopBit, Error> {
        match spec_decode_uint(words) {
            Ok(n) => match Self::spec_from_code(n) {
                Some(v) => Ok(v),
                None => Err(Error::InvalidValue),
            },
            Err(e) => Err(e),
        }
    }

    /// The word sequence this value encodes to.
    pub open spec fn spec_encode(self) -> Seq<u16> {
        spec_encode_uint(self.spec_code())
    }

    pub fn decode_from_holding_registers(words: &[Word]) -> (r: Result<Self, Error>)
        ensures
            r == Self::spec_decode(words@),
    {
        match decode_uint(words) {
            Ok(n) => {
                if n == 0 {
                    Ok(ParityAndStopBit::NoParityOneStopBit)
                } else if n == 1 {
                    Ok(ParityAndStopBit::EvenParityOneStopBit)
                } else if n == 2 {
                    Ok(ParityAndStopBit::OddParityOneStopBit)
                } else if n == 3 {
                    Ok(ParityAndStopBit::NoParityTwoStopBits)
                } else {
                    Err(Error::InvalidValue)
                }
            },
            Err(e) => Err(e),
        }
    }

    pub fn encode_for_write_registers(&self) -> (r: Vec<Word>)
        ensures
            r@ == self.spec_encode(),
    {
        let code: u16 = match self {
            ParityAndStopBit::NoParityOneStopBit => 0,
            ParityAndStopBit::EvenParityOneStopBit => 1,
            ParityAndStopBit::OddParityOneStopBit => 2,
            ParityAndStopBit::NoParityTwoStopBits => 3,
        };
        encode_uint(code)
    }

    /// Round-trip law: decoding an encoded mode yields it back.
    pub proof fn lemma_roundtrip(self)
        ensures
            Self::spec_decode(self.spec_encode()) == Ok::<Self, Error>(self),
    {
        lemma_uint_roundtrip(self.spec_code());
    }
}

// ---------------------------------------------------------------------------
// RS-485 address
// ---------------------------------------------------------------------------

/// Address of the Modbus RTU protocol for the RS-485 serial port, in the
/// range 1 to 247.
///
/// Changing it requires the authorization gate ([`KPPA`]) to be satisfied.
#[derive(Debug, Clone, Copy, PartialEq, Eq, Structural)]
pub struct Address(pub u8);

impl ModbusParam for Address {
    open spec fn spec_address() -> u16 {
        0x0014
    }

    open spec fn spec_quantity() -> u16 {
        2
    }

    fn address() -> u16 {
        0x0014
    }

    fn quantity() -> u16 {
        2
    }
}

impl Default for Address {
    fn default() -> (r: Self)
        ensures
            r == Address(1u8),
    {
        Address(0x01)
    }
}

impl Address {
    pub const MIN: u8 = 1;

    pub const MAX: u8 = 247;

    /// A stored address is within the device's legal range.
    pub open spec fn wf(self) -> bool {
        1 <= self.0 <= 247
    }

    /// What decoding a word sequence yields.
    pub open spec fn spec_decode(words: Seq<u16>) -> Result<Address, Error> {
        match spec_decode_uint(words) {
            Ok(n) => if 1 <= n <= 247 {
                Ok(Address(n as u8))
            } else {
                Err(Error::InvalidValue)
            },
            Err(e) => Err(e),
        }
    }

    /// The word sequence this value encodes to.
    pub open spec fn spec_encode(self) -> Seq<u16> {
        spec_encode_uint(self.0 as u16)
    }

    pub fn decode_from_holding_registers(words: &[Word]) -> (r: Result<Self, Error>)
        ensures
            r == Self::spec_decode(words@),
            r matches Ok(a) ==> a.wf(),
    {
        match decode_uint(words) {
            Ok(n) => {
                if 1 <= n && n <= 247 {
                    Ok(Address(n as u8))
                } else {
                    Err(Error::InvalidValue)
                }
            },
            Err(e) => Err(e),
        }
    }

    pub fn encode_for_write_registers(&self) -> (r: Vec<Word>)
        ensures
            r@ == self.spec_encode(),
    {
        encode_uint(self.0 as u16)
    }

    /// Accepts exactly the addresses 1 to 247.
    pub fn try_from(value: u8) -> (r: Result<Self, Error>)
        ensures
            1 <= value <= 247 ==> r == Ok::<Self, Error>(Address(value)),
            !(1 <= value <= 247) ==> r == Err::<Self, Error>(Error::AddressOutOfRange(value)),
    {
        if 1 <= value && value <= 247 {
            Ok(Address(value))
        } else {
            Err(Error::AddressOutOfRange(value))
        }
    }

    /// The stored RS-485 address.
    pub fn value(&self) -> (r: u8)
        ensures
            r == self.0,
    {
        self.0
    }

    /// Round-trip law: decoding an encoded in-range address yields it back.
    pub proof fn lemma_roundtrip(self)
        requires
            self.wf(),
        ensures
            Self::spec_decode(self.spec_encode()) == Ok::<Self, Error>(self),
    {
        lemma_uint_roundtrip(self.0 as u16);
    }
}

// ---------------------------------------------------------------------------
// Pulse constant
// ---------------------------------------------------------------------------

/// Pulse constant for the pulse output in impulses per kilowatt hour.
///
/// If the pulse constant is 1000 imp/kWh the device fixes the pulse width
/// to 35 ms.
#[derive(Debug, Clone, Copy, PartialEq, Eq, Structural)]
pub enum PulseConstant {
    /// 1000 imp/kWh
    PC1000,
    /// 100 imp/kWh
    PC100,
    /// 10 imp/kWh
    PC10,
    /// 1 imp/kWh
    PC1,
}

impl ModbusParam for PulseConstant {
    open spec fn spec_address() -> u16 {
        0x0016
    }

    open spec fn spec_quantity() -> u16 {
        2
    }

    fn address() -> u16 {
        0x0016
    }

    fn quantity() -> u16 {
        2
    }
}

impl Default for PulseConstant {
    fn default() -> (r: Self)
        ensures
            r == PulseConstant::PC1000,
    {
        PulseConstant::PC1000
    }
}

impl PulseConstant {
    /// The numeric code the device stores for this pulse constant.
    pub open spec fn spec_code(self) -> u16 {
        match self {
            PulseConstant::PC1000 => 0,
            PulseConstant::PC100 => 1,
            PulseConstant::PC10 => 2,
            PulseConstant::PC1 => 3,
        }
    }

    /// The pulse constant a numeric code stands for, if any.
    pub open spec fn spec_from_code(code: u16) -> Option<PulseConstant> {
        if code == 0 {
            Some(PulseConstant::PC1000)
        } else if code == 1 {
            Some(PulseConstant::PC100)
        } else if code == 2 {
            Some(PulseConstant::PC10)
        } else if code == 3 {
            Some(PulseConstant::PC1)
        } else {
            None
        }
    }

    /// What decoding a word sequence yields.
    pub open spec fn spec_decode(words: Seq<u16>) -> Result<PulseConstant, Error> {
        match spec_decode_uint(words) {
            Ok(n) => match Self::spec_from_code(n) {
                Some(v) => Ok(v),
                None => Err(Error::InvalidValue),
            },
            Err(e) => Err(e),
        }
    }

    /// The word sequence this value encodes to.
    pub open spec fn spec_encode(self) -> Seq<u16> {
        spec_encode_uint(self.spec_code())
    }

    pub fn decode_from_holding_registers(words: &[Word]) -> (r: Result<Self, Error>)
        ensures
            r == Self::spec_decode(words@),
    {
        match decode_uint(words) {
            Ok(n) => {
                if n == 0 {
                    Ok(PulseConstant::PC1000)
                } else if n == 1 {
                    Ok(PulseConstant::PC100)
                } else if n == 2 {
                    Ok(PulseConstant::PC10)
                } else if n == 3 {
                    Ok(PulseConstant::PC1)
                } else {
                    Err(Error::InvalidValue)
                }
            },
            Err(e) => Err(e),
        }
    }

    pub fn encode_for_write_registers(&self) -> (r: Vec<Word>)
        ensures
            r@ == self.spec_encode(),
    {
        let code: u16 = match self {
            PulseConstant::PC1000 => 0,
            PulseConstant::PC100 => 1,
            PulseConstant::PC10 => 2,
            PulseConstant::PC1 => 3,
        };
        encode_uint(code)
    }

    /// Round-trip law: decoding an encoded pulse constant yields it back.
    pub proof fn lemma_roundtrip(self)
        ensures
            Self::spec_decode(self.spec_encode()) == Ok::<Self, Error>(self),
    {
        lemma_uint_roundtrip(self.spec_code());
    }
}

// ---------------------------------------------------------------------------
// Password
// ---------------------------------------------------------------------------

/// Password in the range 0 to 9999, written to the authorization register
/// to satisfy the authorization check ([`KPPA`]).
#[derive(Debug, Clone, Copy, PartialEq, Eq, Structural)]
pub struct Password(pub u16);

impl ModbusParam for Password {
    open spec fn spec_address() -> u16 {
        0x0018
    }

    open spec fn spec_quantity() -> u16 {
        2
    }

    fn address() -> u16 {
        0x0018
    }

    fn quantity() -> u16 {
        2
    }
}

impl Default for Password {
    fn default() -> (r: Self)
        ensures
            r == Password(1000u16),
    {
        Password(1000)
    }
}

impl Password {
    pub const MIN: u16 = 0;

    pub const MAX: u16 = 9999;

    /// A stored password is within the device's legal range.
    pub open spec fn wf(self) -> bool {
        self.0 <= 9999
    }

    /// What decoding a word sequence yields.
    pub open spec fn spec_decode(words: Seq<u16>) -> Result<Password, Error> {
        match spec_decode_uint(words) {
            Ok(n) => if n <= 9999 {
                Ok(Password(n))
            } else {
                Err(Error::InvalidValue)
            },
            Err(e) => Err(e),
        }
    }

    /// The word sequence this value encodes to.
    pub open spec fn spec_encode(self) -> Seq<u16> {
        spec_encode_uint(self.0)
    }

    pub fn decode_from_holding_registers(words: &[Word]) -> (r: Result<Self, Error>)
        ensures
            r == Self::spec_decode(words@),
            r matches Ok(p) ==> p.wf(),
    {
        match decode_uint(words) {
            Ok(n) => {
                if n <= 9999 {
                    Ok(Password(n))
                } else {
                    Err(Error::InvalidValue)
                }
            },
            Err(e) => Err(e),
        }
    }

    pub fn encode_for_write_registers(&self) -> (r: Vec<Word>)
        ensures
            r@ == self.spec_encode(),
    {
        encode_uint(self.0)
    }

    /// Accepts exactly the passwords 0 to 9999.
    pub fn try_from(value: u16) -> (r: Result<Self, Error>)
        ensures
            value <= 9999 ==> r == Ok::<Self, Error>(Password(value)),
            value > 9999 ==> r == Err::<Self, Error>(Error::PasswordOutOfRange(value)),
    {
        if value <= 9999 {
            Ok(Password(value))
        } else {
            Err(Error::PasswordOutOfRange(value))
        }
    }

    /// The stored password.
    pub fn value(&self) -> (r: u16)
        ensures
            r == self.0,
    {
        self.0
    }

    /// Round-trip law: decoding an encoded in-range password yields it back.
    pub proof fn lemma_roundtrip(self)
        requires
            self.wf(),
        ensures
            Self::spec_decode(self.spec_encode()) == Ok::<Self, Error>(self),
    {
        lemma_uint_roundtrip(self.0);
    }
}

// ---------------------------------------------------------------------------
// Baud rate
// ---------------------------------------------------------------------------

/// Baud rate of the Modbus RTU protocol for the RS-485 serial port.
/// Supported rates: 1200, 2400, 4800, 9600, 19200.
///
/// The device's numeric codes are a fixed non-sequential table
/// (`1200 <-> 5`, `2400 <-> 0`, `4800 <-> 1`, `9600 <-> 2`, `19200 <-> 3`)
/// and must never be derived from declaration order.
///
/// Changing it requires the authorization gate ([`KPPA`]) to be satisfied.
#[derive(Debug, Clone, Copy, PartialEq, Eq, Structural)]
pub enum BaudRate {
    B1200,
    B2400,
    B4800,
    B9600,
    B19200,
}

impl ModbusParam for BaudRate {
    open spec fn spec_address() -> u16 {
        0x001C
    }

    open spec fn spec_quantity() -> u16 {
        2
    }

    fn address() -> u16 {
        0x001C
    }

    fn quantity() -> u16 {
        2
    }
}

impl Default for BaudRate {
    fn default() -> (r: Self)
        ensures
            r == BaudRate::B9600,
    {
        BaudRate::B9600
    }
}

impl BaudRate {
    /// The device-specific numeric code stored for this rate.
    pub open spec fn spec_code(self) -> u16 {
        match self {
            BaudRate::B1200 => 5,
            BaudRate::B2400 => 0,
            BaudRate::B4800 => 1,
            BaudRate::B9600 => 2,
            BaudRate::B19200 => 3,
        }
    }

    /// The rate a device code stands for, if any.
    pub open spec fn spec_from_code(code: u16) -> Option<BaudRate> {
        if code == 5 {
            Some(BaudRate::B1200)
        } else if code == 0 {
            Some(BaudRate::B2400)
        } else if code == 1 {
            Some(BaudRate::B4800)
        } else if code == 2 {
            Some(BaudRate::B9600)
        } else if code == 3 {
            Some(BaudRate::B19200)
        } else {
            None
        }
    }

    /// The rate in bits per second.
    pub open spec fn spec_rate(self) -> u16 {
        match self {
            BaudRate::B1200 => 1200,
            BaudRate::B2400 => 2400,
            BaudRate::B4800 => 4800,
            BaudRate::B9600 => 9600,
            BaudRate::B19200 => 19200,
        }
    }

    /// What decoding a word sequence yields.
    pub open spec fn spec_decode(words: Seq<u16>) -> Result<BaudRate, Error> {
        match spec_decode_uint(words) {
            Ok(n) => match Self::spec_from_code(n) {
                Some(v) => Ok(v),
                None => Err(Error::InvalidValue),
            },
            Err(e) => Err(e),
        }
    }

    /// The word sequence this value encodes to.
    pub open spec fn spec_encode(self) -> Seq<u16> {
        spec_encode_uint(self.spec_code())
    }

    pub fn decode_from_holding_registers(words: &[Word]) -> (r: Result<Self, Error>)
        ensures
            r == Self::spec_decode(words@),
    {
        match decode_uint(words) {
            Ok(n) => {
                if n == 5 {
                    Ok(BaudRate::B1200)
                } else if n == 0 {
                    Ok(BaudRate::B2400)
                } else if n == 1 {
                    Ok(BaudRate::B4800)
                } else if n == 2 {
                    Ok(BaudRate::B9600)
                } else if n == 3 {
                    Ok(BaudRate::B19200)
                } else {
                    Err(Error::InvalidValue)
                }
            },
            Err(e) => Err(e),
        }
    }

    pub fn encode_for_write_registers(&self) -> (r: Vec<Word>)
        ensures
            r@ == self.spec_encode(),
    {
        let code: u16 = match self {
            BaudRate::B1200 => 5,
            BaudRate::B2400 => 0,
            BaudRate::B4800 => 1,
            BaudRate::B9600 => 2,
            BaudRate::B19200 => 3,
        };
        encode_uint(code)
    }

    /// The raw numeric code of the register, without the table lookup.
    pub fn decode(words: &[Word]) -> (r: Result<u16, Error>)
        ensures
            r == spec_decode_uint(words@),
    {
        decode_uint(words)
    }

    /// Accepts exactly the five supported rates in bits per second.
    pub fn try_from(value: u16) -> (r: Result<Self, Error>)
        ensures
            value == 1200 ==> r == Ok::<Self, Error>(BaudRate::B1200),
            value == 2400 ==> r == Ok::<Self, Error>(BaudRate::B2400),
            value == 4800 ==> r == Ok::<Self, Error>(BaudRate::B4800),
            value == 9600 ==> r == Ok::<Self, Error>(BaudRate::B9600),
            value == 19200 ==> r == Ok::<Self, Error>(BaudRate::B19200),
            !(value == 1200 || value == 2400 || value == 4800 || value == 9600 || value
                == 19200) ==> r == Err::<Self, Error>(Error::InvalidBaudRate),
    {
        if value == 1200 {
            Ok(BaudRate::B1200)
        } else if value == 2400 {
            Ok(BaudRate::B2400)
        } else if value == 4800 {
            Ok(BaudRate::B4800)
        } else if value == 9600 {
            Ok(BaudRate::B9600)
        } else if value == 19200 {
            Ok(BaudRate::B19200)
        } else {
            Err(Error::InvalidBaudRate)
        }
    }

    /// The rate in bits per second.
    pub fn rate(&self) -> (r: u16)
        ensures
            r == self.spec_rate(),
    {
        match self {
            BaudRate::B1200 => 1200,
            BaudRate::B2400 => 2400,
            BaudRate::B4800 => 4800,
            BaudRate::B9600 => 9600,
            BaudRate::B19200 => 19200,
        }
    }

    /// Round-trip law: decoding an encoded rate yields it back, for every
    /// one of the five supported rates.
    pub proof fn lemma_roundtrip(self)
        ensures
            Self::spec_decode(self.spec_encode()) == Ok::<Self, Error>(self),
    {
        lemma_uint_roundtrip(self.spec_code());
    }

    /// The code table is a bijection: the encode table is the exact inverse
    /// of the decode table on the five supported rates.
    pub proof fn lemma_code_table_bijective()
        ensures
            forall|b: BaudRate| Self::spec_from_code(#[trigger] b.spec_code()) == Some(b),
            forall|c: u16|
                (#[trigger] Self::spec_from_code(c)) matches Some(b) ==> b.spec_code() == c,
    {
    }
}

// ---------------------------------------------------------------------------
// Auto scroll time
// ---------------------------------------------------------------------------

/// Automatic display scroll time in seconds, in the range 0 to 60.
///
/// Changing it requires the authorization gate ([`KPPA`]) to be satisfied.
#[derive(Debug, Clone, Copy, PartialEq, Eq, Structural)]
pub struct AutoScrollTime(pub u8);

impl ModbusParam for AutoScrollTime {
    open spec fn spec_address() -> u16 {
        0x003A
    }

    open spec fn spec_quantity() -> u16 {
        2
    }

    fn address() -> u16 {
        0x003A
    }

    fn quantity() -> u16 {
        2
    }
}

impl Default for AutoScrollTime {
    fn default() -> (r: Self)
        ensures
            r == AutoScrollTime(5u8),
    {
        AutoScrollTime(5)
    }
}

impl AutoScrollTime {
    pub const MIN: u8 = 0;

    pub const MAX: u8 = 60;

    /// A stored scroll time is within the device's legal range.
    pub open spec fn wf(self) -> bool {
        self.0 <= 60
    }

    /// What decoding a word sequence yields.
    pub open spec fn spec_decode(words: Seq<u16>) -> Result<AutoScrollTime, Error> {
        match spec_decode_uint(words) {
            Ok(n) => if n <= 60 {
                Ok(AutoScrollTime(n as u8))
            } else {
                Err(Error::InvalidValue)
            },
            Err(e) => Err(e),
        }
    }

    /// The word sequence this value encodes to.
    pub open spec fn spec_encode(self) -> Seq<u16> {
        spec_encode_uint(self.0 as u16)
    }

    pub fn decode_from_holding_registers(words: &[Word]) -> (r: Result<Self, Error>)
        ensures
            r == Self::spec_decode(words@),
            r matches Ok(t) ==> t.wf(),
    {
        match decode_uint(words) {
            Ok(n) => {
                if n <= 60 {
                    Ok(AutoScrollTime(n as u8))
                } else {
                    Err(Error::InvalidValue)
                }
            },
            Err(e) => Err(e),
        }
    }

    pub fn encode_for_write_registers(&self) -> (r: Vec<Word>)
        ensures
            r@ == self.spec_encode(),
    {
        encode_uint(self.0 as u16)
    }

    /// The raw numeric value of the register, accepted whenever it fits in
    /// eight bits.
    pub fn decode(words: &[Word]) -> (r: Result<u8, Error>)
        ensures
            r == (match spec_decode_uint(words@) {
                Ok(n) => if n <= 255 {
                    Ok::<u8, Error>(n as u8)
                } else {
                    Err::<u8, Error>(Error::InvalidValue)
                },
                Err(e) => Err::<u8, Error>(e),
            }),
    {
        match decode_uint(words) {
            Ok(n) => {
                if n <= 255 {
                    Ok(n as u8)
                } else {
                    Err(Error::InvalidValue)
                }
            },
            Err(e) => Err(e),
        }
    }

    /// Accepts exactly the scroll times 0 to 60 seconds.
    pub fn try_from(value: u8) -> (r: Result<Self, Error>)
        ensures
            value <= 60 ==> r == Ok::<Self, Error>(AutoScrollTime(value)),
            value > 60 ==> r == Err::<Self, Error>(Error::AutoScrollTimeOutOfRange(value)),
    {
        if value <= 60 {
            Ok(AutoScrollTime(value))
        } else {
            Err(Error::AutoScrollTimeOutOfRange(value))
        }
    }

    /// The stored scroll time in seconds.
    pub fn value(&self) -> (r: u8)
        ensures
            r == self.0,
    {
        self.0
    }

    /// Round-trip law: decoding an encoded in-range scroll time yields it back.
    pub proof fn lemma_roundtrip(self)
        requires
            self.wf(),
        ensures
            Self::spec_decode(self.spec_encode()) == Ok::<Self, Error>(self),
    {
        lemma_uint_roundtrip(self.0 as u16);
    }
}

// ---------------------------------------------------------------------------
// Backlight time
// ---------------------------------------------------------------------------

/// Backlight time of the display in minutes.
///
/// The wire value is sentinel-plus-range, not a contiguous range: 0 means
/// the backlight stays on, 121 means it stays off, and 1 to 120 is a
/// literal minute count after which the backlight goes dark.
///
/// Changing it requires the authorization gate ([`KPPA`]) to be satisfied.
#[derive(Debug, Clone, Copy, PartialEq, Eq, Structural)]
pub enum BacklightTime {
    AlwaysOn,
    AlwaysOff,
    Delayed(u8),
}

impl ModbusParam for BacklightTime {
    open spec fn spec_address() -> u16 {
        0x003C
    }

    open spec fn spec_quantity() -> u16 {
        2
    }

    fn address() -> u16 {
        0x003C
    }

    fn quantity() -> u16 {
        2
    }
}

impl Default for BacklightTime {
    fn default() -> (r: Self)
        ensures
            r == BacklightTime::Delayed(60u8),
    {
        BacklightTime::Delayed(60)
    }
}

impl BacklightTime {
    pub const MIN: u8 = 1;

    pub const MAX: u8 = 120;

    /// A delayed time stores a minute count in the range 1 to 120; the two
    /// sentinels store nothing.
    pub open spec fn wf(self) -> bool {
        match self {
            BacklightTime::Delayed(v) => 1 <= v <= 120,
            _ => true,
        }
    }

    /// The numeric value the device stores for this setting.
    pub open spec fn spec_code(self) -> u16 {
        match self {
            BacklightTime::AlwaysOn => 0,
            BacklightTime::AlwaysOff => 121,
            BacklightTime::Delayed(v) => v as u16,
        }
    }

    /// The setting a numeric value stands for, if any.
    pub open spec fn spec_from_code(code: u16) -> Option<BacklightTime> {
        if code == 0 {
            Some(BacklightTime::AlwaysOn)
        } else if code == 121 {
            Some(BacklightTime::AlwaysOff)
        } else if 1 <= code <= 120 {
            Some(BacklightTime::Delayed(code as u8))
        } else {
            None
        }
    }

    /// What decoding a word sequence yields.
    pub open spec fn spec_decode(words: Seq<u16>) -> Result<BacklightTime, Error> {
        match spec_decode_uint(words) {
            Ok(n) => match Self::spec_from_code(n) {
                Some(v) => Ok(v),
                None => Err(Error::InvalidValue),
            },
            Err(e) => Err(e),
        }
    }

    /// The word sequence this value encodes to.
    pub open spec fn spec_encode(self) -> Seq<u16> {
        spec_encode_uint(self.spec_code())
    }

    pub fn decode_from_holding_registers(words: &[Word]) -> (r: Result<Self, Error>)
        ensures
            r == Self::spec_decode(words@),
            r matches Ok(t) ==> t.wf(),
    {
        match decode_uint(words) {
            Ok(n) => {
                if n == 0 {
                    Ok(BacklightTime::AlwaysOn)
                } else if n == 121 {
                    Ok(BacklightTime::AlwaysOff)
                } else if 1 <= n && n <= 120 {
                    Ok(BacklightTime::Delayed(n as u8))
                } else {
                    Err(Error::InvalidValue)
                }
            },
            Err(e) => Err(e),
        }
    }

    pub fn encode_for_write_registers(&self) -> (r: Vec<Word>)
        ensures
            r@ == self.spec_encode(),
    {
        let code: u16 = match self {
            BacklightTime::AlwaysOn => 0,
            BacklightTime::AlwaysOff => 121,
            BacklightTime::Delayed(v) => *v as u16,
        };
        encode_uint(code)
    }

    /// Accepts 1 to 120 as a delayed minute count and the two sentinel
    /// values 0 (always on) and 121 (always off); everything else fails.
    pub fn try_from(value: u8) -> (r: Result<Self, Error>)
        ensures
            1 <= value <= 120 ==> r == Ok::<Self, Error>(BacklightTime::Delayed(value)),
            value == 0 ==> r == Ok::<Self, Error>(BacklightTime::AlwaysOn),
            value == 121 ==> r == Ok::<Self, Error>(BacklightTime::AlwaysOff),
            value > 121 ==> r == Err::<Self, Error>(Error::BacklitTimeOutOfRange(value)),
    {
        if 1 <= value && value <= 120 {
            Ok(BacklightTime::Delayed(value))
        } else if value == 0 {
            Ok(BacklightTime::AlwaysOn)
        } else if value == 121 {
            Ok(BacklightTime::AlwaysOff)
        } else {
            Err(Error::BacklitTimeOutOfRange(value))
        }
    }

    /// Round-trip law: decoding an encoded backlight setting yields it back.
    pub proof fn lemma_roundtrip(self)
        requires
            self.wf(),
        ensures
            Self::spec_decode(self.spec_encode()) == Ok::<Self, Error>(self),
    {
        lemma_uint_roundtrip(self.spec_code());
    }
}

// ---------------------------------------------------------------------------
// Pulse energy type
// ---------------------------------------------------------------------------

/// Pulse energy type for the pulse output: the quantity the pulse output
/// reports. The device codes are {1, 2, 4}, not ordinal positions.
#[derive(Debug, Clone, Copy, PartialEq, Eq, Structural)]
pub enum PulseEnergyType {
    ImportActiveEnergy,
    TotalActiveEnergy,
    ExportActiveEnergy,
}

impl ModbusParam for PulseEnergyType {
    open spec fn spec_address() -> u16 {
        0x0056
    }

    open spec fn spec_quantity() -> u16 {
        2
    }

    fn address() -> u16 {
        0x0056
    }

    fn quantity() -> u16 {
        2
    }
}

impl Default for PulseEnergyType {
    fn default() -> (r: Self)
        ensures
            r == PulseEnergyType::TotalActiveEnergy,
    {
        PulseEnergyType::TotalActiveEnergy
    }
}

impl PulseEnergyType {
    /// The numeric code the device stores for this energy type.
    pub open spec fn spec_code(self) -> u16 {
        match self {
            PulseEnergyType::ImportActiveEnergy => 1,
            PulseEnergyType::TotalActiveEnergy => 2,
            PulseEnergyType::ExportActiveEnergy => 4,
        }
    }

    /// The energy type a numeric code stands for, if any.
    pub open spec fn spec_from_code(code: u16) -> Option<PulseEnergyType> {
        if code == 1 {
            Some(PulseEnergyType::ImportActiveEnergy)
        } else if code == 2 {
            Some(PulseEnergyType::TotalActiveEnergy)
        } else if code == 4 {
            Some(PulseEnergyType::ExportActiveEnergy)
        } else {
            None
        }
    }

    /// What decoding a word sequence yields.
    pub open spec fn spec_decode(words: Seq<u16>) -> Result<PulseEnergyType, Error> {
        match spec_decode_uint(words) {
            Ok(n) => match Self::spec_from_code(n) {
                Some(v) => Ok(v),
                None => Err(Error::InvalidValue),
            },
            Err(e) => Err(e),
        }
    }

    /// The word sequence this value encodes to.
    pub open spec fn spec_encode(self) -> Seq<u16> {
        spec_encode_uint(self.spec_code())
    }

    pub fn decode_from_holding_registers(words: &[Word]) -> (r: Result<Self, Error>)
        ensures
            r == Self::spec_decode(words@),
    {
        match decode_uint(words) {
            Ok(n) => {
                if n == 1 {
                    Ok(PulseEnergyType::ImportActiveEnergy)
                } else if n == 2 {
                    Ok(PulseEnergyType::TotalActiveEnergy)
                } else if n == 4 {
                    Ok(PulseEnergyType::ExportActiveEnergy)
                } else {
                    Err(Error::InvalidValue)
                }
            },
            Err(e) => Err(e),
        }
    }

    pub fn encode_for_write_registers(&self) -> (r: Vec<Word>)
        ensures
            r@ == self.spec_encode(),
    {
        let code: u16 = match self {
            PulseEnergyType::ImportActiveEnergy => 1,
            PulseEnergyType::TotalActiveEnergy => 2,
            PulseEnergyType::ExportActiveEnergy => 4,
        };
        encode_uint(code)
    }

    /// Round-trip law: decoding an encoded energy type yields it back.
    pub proof fn lemma_roundtrip(self)
        ensures
            Self::spec_decode(self.spec_encode()) == Ok::<Self, Error>(self),
    {
        lemma_uint_roundtrip(self.spec_code());
    }
}

// ---------------------------------------------------------------------------
// Reset historical data
// ---------------------------------------------------------------------------

/// Reset of the historically saved data: a fixed-value write to a dedicated
/// command register.
///
/// Issuing it requires the authorization gate ([`KPPA`]) to be satisfied.
pub struct ResetHistoricalData;

impl ModbusParam for ResetHistoricalData {
    open spec fn spec_address() -> u16 {
        0xF010
    }

    open spec fn spec_quantity() -> u16 {
        1
    }

    fn address() -> u16 {
        0xF010
    }

    fn quantity() -> u16 {
        1
    }
}

impl ResetHistoricalData {
    /// The fixed word value the command register takes.
    pub open spec fn spec_encode() -> Seq<u16> {
        seq![0x0003u16]
    }

    pub fn encode_for_write_registers() -> (r: Vec<Word>)
        ensures
            r@ == Self::spec_encode(),
    {
        let r = vec![0x0003u16];
        proof {
            assert(r@ =~= Self::spec_encode());
        }
        r
    }
}

// ---------------------------------------------------------------------------
// Identity registers (read-only)
// ---------------------------------------------------------------------------

/// The device's serial number, a raw 32-bit integer over two words.
#[derive(Debug, Clone, Copy, PartialEq, Eq, Structural)]
pub struct SerialNumber(pub u32);

impl ModbusParam for SerialNumber {
    open spec fn spec_address() -> u16 {
        0xFC00
    }

    open spec fn spec_quantity() -> u16 {
        2
    }

    fn address() -> u16 {
        0xFC00
    }

    fn quantity() -> u16 {
        2
    }
}

impl SerialNumber {
    /// What decoding a word sequence yields.
    pub open spec fn spec_decode(words: Seq<u16>) -> Result<SerialNumber, Error> {
        if words.len() == 2 {
            Ok(SerialNumber(spec_words_to_u32(words)))
        } else {
            Err(Error::WordsCountError)
        }
    }

    pub fn decode_from_holding_registers(words: &[Word]) -> (r: Result<Self, Error>)
        ensures
            r == Self::spec_decode(words@),
    {
        match words_to_u32(words) {
            Ok(bits) => Ok(SerialNumber(bits)),
            Err(e) => Err(e),
        }
    }

    /// The stored serial number.
    pub fn value(&self) -> (r: u32)
        ensures
            r == self.0,
    {
        self.0
    }
}

/// The device's meter code, a raw 16-bit integer (0x0089 for SDM72D-M-2).
#[derive(Debug, Clone, Copy, PartialEq, Eq, Structural)]
pub struct MeterCode(pub u16);

impl ModbusParam for MeterCode {
    open spec fn spec_address() -> u16 {
        0xFC02
    }

    open spec fn spec_quantity() -> u16 {
        1
    }

    fn address() -> u16 {
        0xFC02
    }

    fn quantity() -> u16 {
        1
    }
}

impl MeterCode {
    /// What decoding a word sequence yields.
    pub open spec fn spec_decode(words: Seq<u16>) -> Result<MeterCode, Error> {
        if words.len() == 1 {
            Ok(MeterCode(words[0]))
        } else {
            Err(Error::WordsCountError)
        }
    }

    pub fn decode_from_holding_registers(words: &[Word]) -> (r: Result<Self, Error>)
        ensures
            r == Self::spec_decode(words@),
    {
        if words.len() == 1 {
            Ok(MeterCode(words[0]))
        } else {
            Err(Error::WordsCountError)
        }
    }

    /// The stored meter code.
    pub fn value(&self) -> (r: u16)
        ensures
            r == self.0,
    {
        self.0
    }
}

/// The software version shown on the display: major and minor number in the
/// high and low byte of a raw 16-bit integer.
#[derive(Debug, Clone, Copy, PartialEq, Eq, Structural)]
pub struct SoftwareVersion(pub u16);

impl ModbusParam for SoftwareVersion {
    open spec fn spec_address() -> u16 {
        0xFC84
    }

    open spec fn spec_quantity() -> u16 {
        1
    }

    fn address() -> u16 {
        0xFC84
    }

    fn quantity() -> u16 {
        1
    }
}

impl SoftwareVersion {
    /// What decoding a word sequence yields.
    pub open spec fn spec_decode(words: Seq<u16>) -> Result<SoftwareVersion, Error> {
        if words.len() == 1 {
            Ok(SoftwareVersion(words[0]))
        } else {
            Err(Error::WordsCountError)
        }
    }

    pub fn decode_from_holding_registers(words: &[Word]) -> (r: Result<Self, Error>)
        ensures
            r == Self::spec_decode(words@),
    {
        if words.len() == 1 {
            Ok(SoftwareVersion(words[0]))
        } else {
            Err(Error::WordsCountError)
        }
    }

    /// The stored version word.
    pub fn value(&self) -> (r: u16)
        ensures
            r == self.0,
    {
        self.0
    }

    /// The major version number, the high byte of the version word.
    pub fn major(&self) -> (r: u8)
        ensures
            r == self.0 / 256,
    {
        (self.0 / 256) as u8
    }

    /// The minor version number, the low byte of the version word.
    pub fn minor(&self) -> (r: u8)
        ensures
            r == self.0 % 256,
    {
        (self.0 % 256) as u8
    }
}

// ---------------------------------------------------------------------------
// Measured values (input registers)
// ---------------------------------------------------------------------------

/// One measured or calculated electrical quantity from an input register:
/// the raw 32-bit single-precision bit pattern of two big-endian words.
///
/// The pattern is kept as bits because a measurement is an arbitrary
/// single-precision number; callers that need the numeric value reinterpret
/// the bits at the display edge, at full sensor precision.
#[derive(Debug, Clone, Copy, PartialEq, Eq, Structural)]
pub struct Measurement(pub u32);

impl Measurement {
    /// What decoding a word sequence yields.
    pub open spec fn spec_decode(words: Seq<u16>) -> Result<Measurement, Error> {
        if words.len() == 2 {
            Ok(Measurement(spec_words_to_u32(words)))
        } else {
            Err(Error::WordsCountError)
        }
    }

    /// The word sequence this measurement encodes to.
    pub open spec fn spec_encode(self) -> Seq<u16> {
        crate::codec::spec_u32_to_words(self.0)
    }

    pub fn decode_from_input_register(words: &[Word]) -> (r: Result<Self, Error>)
        ensures
            r == Self::spec_decode(words@),
    {
        match words_to_u32(words) {
            Ok(bits) => Ok(Measurement(bits)),
            Err(e) => Err(e),
        }
    }

    /// The two register words carrying this measurement.
    pub fn encode_for_registers(&self) -> (r: Vec<Word>)
        ensures
            r@ == self.spec_encode(),
    {
        crate::codec::u32_to_words(self.0)
    }

    /// The raw single-precision bit pattern.
    pub fn bits(&self) -> (r: u32)
        ensures
            r == self.0,
    {
        self.0
    }

    /// When the measurement is a small non-negative integer, its value;
    /// `None` for every other pattern.
    pub fn integer_value(&self) -> (r: Option<u16>)
        ensures
            r == ieee_value(self.0),
    {
        crate::codec::ieee_bits_to_u16(self.0)
    }

    /// Round-trip law: the words of a decoded measurement re-encode
    /// bit-for-bit, and an encoded measurement decodes back to itself.
    pub proof fn lemma_roundtrip(self, words: Seq<u16>)
        ensures
            Self::spec_decode(self.spec_encode()) == Ok::<Self, Error>(self),
            Self::spec_decode(words) matches Ok(m) ==> m.spec_encode() == words,
    {
        crate::codec::lemma_u32_words_roundtrip(self.0);
        if words.len() == 2 {
            let bits = spec_words_to_u32(words);
            vstd::arithmetic::div_mod::lemma_fundamental_div_mod_converse(
                bits as int,
                0x1_0000,
                words[0] as int,
                words[1] as int,
            );
            assert(crate::codec::spec_u32_to_words(bits) =~= words);
        }
    }
}

} // verus!
