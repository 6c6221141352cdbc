//! The CS811 air-quality sensor: its registers, its modes, and how the values it
//! reads and writes are laid out in bytes.
use vstd::prelude::*;
use crate::text::{append_int, int_text};

verus! {

/// How often the sensor measures.
#[derive(Clone, Copy, Debug, PartialEq, Eq, Structural)]
pub enum MeasurementModes {
    /// No measurement.
    Idle,
    /// Once a second.
    Second,
    /// Every ten seconds.
    TenSeconds,
    /// Every minute.
    Minute,
    /// Every ten milliseconds.
    Fast,
}

impl MeasurementModes {
    pub open spec fn code(&self) -> u8 {
        match self {
            MeasurementModes::Idle => 0x00,
            MeasurementModes::Second => 0x01,
            MeasurementModes::TenSeconds => 0x02,
            MeasurementModes::Minute => 0x03,
            MeasurementModes::Fast => 0x04,
        }
    }

    /// The drive-mode code of the mode.
    pub fn value(&self) -> (r: u8)
        ensures
            r == self.code(),
    {
        match *self {
            MeasurementModes::Idle => 0x00,
            MeasurementModes::Second => 0x01,
            MeasurementModes::TenSeconds => 0x02,
            MeasurementModes::Minute => 0x03,
            MeasurementModes::Fast => 0x04,
        }
    }

    pub open spec fn text(&self) -> Seq<char> {
        match self {
            MeasurementModes::Idle => "Idle"@,
            MeasurementModes::Second => "Second"@,
            MeasurementModes::TenSeconds => "Ten seconds"@,
            MeasurementModes::Minute => "Minute"@,
            MeasurementModes::Fast => "Fast"@,
        }
    }

    pub fn to_string(&self) -> (r: String)
        ensures
            r@ == self.text(),
    {
        match self {
            MeasurementModes::Idle => String::from_str("Idle"),
            MeasurementModes::Second => String::from_str("Second"),
            MeasurementModes::TenSeconds => String::from_str("Ten seconds"),
            MeasurementModes::Minute => String::from_str("Minute"),
            MeasurementModes::Fast => String::from_str("Fast"),
        }
    }
}

/// The commands of the sensor's boot loader.
#[derive(Clone, Copy, Debug, PartialEq, Eq, Structural)]
pub enum AppBootLoaderActions {
    Erase,
    Data,
    Verify,
    Start,
}

impl AppBootLoaderActions {
    pub open spec fn code(&self) -> u8 {
        match self {
            AppBootLoaderActions::Erase => 0xF1,
            AppBootLoaderActions::Data => 0xF2,
            AppBootLoaderActions::Verify => 0xF3,
            AppBootLoaderActions::Start => 0xF4,
        }
    }

    pub fn value(&self) -> (r: u8)
        ensures
            r == self.code(),
    {
        match *self {
            AppBootLoaderActions::Erase => 0xF1,
            AppBootLoaderActions::Data => 0xF2,
            AppBootLoaderActions::Verify => 0xF3,
            AppBootLoaderActions::Start => 0xF4,
        }
    }

    pub open spec fn text(&self) -> Seq<char> {
        match self {
            AppBootLoaderActions::Erase => "Erase"@,
            AppBootLoaderActions::Data => "Data"@,
            AppBootLoaderActions::Verify => "Verify"@,
            AppBootLoaderActions::Start => "Start"@,
        }
    }

    pub fn to_string(&self) -> (r: String)
        ensures
            r@ == self.text(),
    {
        match self {
            AppBootLoaderActions::Erase => String::from_str("Erase"),
            AppBootLoaderActions::Data => String::from_str("Data"),
            AppBootLoaderActions::Verify => String::from_str("Verify"),
            AppBootLoaderActions::Start => String::from_str("Start"),
        }
    }
}

/// The sensor's registers.
#[derive(Clone, Copy, Debug, PartialEq, Eq, Structural)]
pub enum Registers {
    Status,
    MeasurementMode,
    AlgorithmicResultData,
    RawData,
    EnvironmentData,
    NtcResistor,
    Thresholds,
    BaseLine,
    HardwareID,
    HardwareVersion,
    FirmwareBootVersion,
    FirmwareApplicationVersion,
    ErrorID,
    SoftReset,
}

impl Registers {
    pub open spec fn code(&self) -> u8 {
        match self {
            Registers::Status => 0x00,
            Registers::MeasurementMode => 0x01,
            Registers::AlgorithmicResultData => 0x02,
            Registers::RawData => 0x03,
            Registers::EnvironmentData => 0x05,
            Registers::NtcResistor => 0x06,
            Registers::Thresholds => 0x10,
            Registers::BaseLine => 0x11,
            Registers::HardwareID => 0x20,
            Registers::HardwareVersion => 0x21,
            Registers::FirmwareBootVersion => 0x23,
            Registers::FirmwareApplicationVersion => 0x24,
            Registers::ErrorID => 0xE0,
            Registers::SoftReset => 0xFF,
        }
    }

    /// The address of the register.
    pub fn value(&self) -> (r: u8)
        ensures
            r == self.code(),
    {
        match *self {
            Registers::Status => 0x00,
            Registers::MeasurementMode => 0x01,
            Registers::AlgorithmicResultData => 0x02,
            Registers::RawData => 0x03,
            Registers::EnvironmentData => 0x05,
            Registers::NtcResistor => 0x06,
            Registers::Thresholds => 0x10,
            Registers::BaseLine => 0x11,
            Registers::HardwareID => 0x20,
            Registers::HardwareVersion => 0x21,
            Registers::FirmwareBootVersion => 0x23,
            Registers::FirmwareApplicationVersion => 0x24,
            Registers::ErrorID => 0xE0,
            Registers::SoftReset => 0xFF,
        }
    }
}

/// The fields of the measurement-mode register.
#[derive(Clone, Copy, Debug, PartialEq, Eq, Structural)]
pub struct MeasureRegister {
    pub threshold: u8,
    pub dataready: u8,
    pub drivemode: u8,
}

/// A flag byte: 1 when the condition holds.
pub open spec fn flag(b: bool) -> u8 {
    if b {
        1
    } else {
        0
    }
}

impl MeasureRegister {
    /// The register's bits, one byte each, from bit 0 to bit 7: the threshold flag at
    /// 2, the data-ready flag at 3, and the drive mode's bits at 4 to 6.
    pub open spec fn bits(&self) -> Seq<u8> {
        seq![
            0,
            0,
            self.threshold,
            self.dataready,
            flag(self.drivemode == 1 || self.drivemode == 3),
            flag(self.drivemode == 2 || self.drivemode == 3),
            flag(self.drivemode == 4),
            0,
        ]
    }

    /// The register's value.
    pub open spec fn byte(&self) -> int {
        self.drivemode * 16 + self.dataready * 8 + self.threshold * 4
    }

    pub fn into_bytes(self) -> (r: Vec<u8>)
        ensures
            r@ == self.bits(),
    {
        let mut result: Vec<u8> = vec![0u8, 0u8, 0u8, 0u8, 0u8, 0u8, 0u8, 0u8];
        result.set(6, if self.drivemode == 0x04 { 1 } else { 0 });
        result.set(5, if self.drivemode == 0x02 || self.drivemode == 0x03 { 1 } else { 0 });
        result.set(4, if self.drivemode == 0x01 || self.drivemode == 0x03 { 1 } else { 0 });
        result.set(3, self.dataready);
        result.set(2, self.threshold);
        assert(result@ =~= self.bits());
        result
    }

    pub fn into_byte(self) -> (r: u8)
        requires
            self.byte() <= 255,
        ensures
            r == self.byte(),
    {
        let mut total: u8 = 0;
        total = total + self.drivemode * 16;
        total = total + self.dataready * 8;
        total = total + self.threshold * 4;
        total
    }
}

/// A CS811 sensor on the I2C bus: its name, its bus address, and the mode it was
/// last set to.
pub struct CS811 {
    name: String,
    address: u8,
    measurement_mode: MeasurementModes,
}

/// The big-endian value of two bytes.
pub open spec fn be_u16(high: u8, low: u8) -> int {
    high * 256 + low
}

impl CS811 {
    pub closed spec fn name_view(&self) -> Seq<char> {
        self.name@
    }

    pub closed spec fn address_view(&self) -> u8 {
        self.address
    }

    pub closed spec fn mode_view(&self) -> MeasurementModes {
        self.measurement_mode
    }

    /// A sensor that has not been set to measure.
    pub fn new(name: String, address: u8) -> (r: CS811)
        ensures
            r.name_view() == name@,
            r.address_view() == address,
            r.mode_view() == MeasurementModes::Idle,
    {
        CS811 { name, address, measurement_mode: MeasurementModes::Idle }
    }

    pub fn address(&self) -> (r: u8)
        ensures
            r == self.address_view(),
    {
        self.address
    }

    pub fn measurement_mode(&self) -> (r: MeasurementModes)
        ensures
            r == self.mode_view(),
    {
        self.measurement_mode
    }

    /// Sets the sensor's mode, and returns the register and the byte to write to it:
    /// the mode's drive code in bits 4 to 6, with no interrupts.
    pub fn set_measurement_mode(&mut self, measurement_mode: MeasurementModes) -> (r: (u8, u8))
        ensures
            final(self).mode_view() == measurement_mode,
            final(self).name_view() == old(self).name_view(),
            final(self).address_view() == old(self).address_view(),
            r.0 == Registers::MeasurementMode.code(),
            r.1 == measurement_mode.code() * 16,
    {
        let value = measurement_mode.value();
        let measurement = MeasureRegister { threshold: 0, dataready: 0, drivemode: value };
        let write_value = measurement.into_byte();
        self.measurement_mode = measurement_mode;
        (Registers::MeasurementMode.value(), write_value)
    }

    /// The big-endian value of two bytes read from the sensor.
    pub fn two_byte_to_one(buffer: [u8; 2]) -> (r: u16)
        ensures
            r == be_u16(buffer@[0], buffer@[1]),
    {
        let high = buffer[0] as u16;
        let low = buffer[1] as u16;
        assert((high << 8u16) | low == high * 256 + low) by (bit_vector)
            requires
                high < 256,
                low < 256,
        ;
        (high << 8) | low
    }

    /// The two resistances read from the NTC register: two big-endian values.
    pub fn get_ntc_values(buffer: [u8; 4]) -> (r: [u16; 2])
        ensures
            r@[0] == be_u16(buffer@[0], buffer@[1]),
            r@[1] == be_u16(buffer@[2], buffer@[3]),
    {
        let c1 = CS811::two_byte_to_one([buffer[0], buffer[1]]);
        let c2 = CS811::two_byte_to_one([buffer[2], buffer[3]]);
        [c1, c2]
    }

    pub open spec fn text(&self) -> Seq<char> {
        "Sensor CS811 with name "@ + self.name_view() + " and address "@ + int_text(
            self.address_view() as int,
        )
    }

    pub fn to_string(&self) -> (r: String)
        ensures
            r@ == self.text(),
    {
        let mut r = String::from_str("Sensor CS811 with name ");
        r.append(self.name.as_str());
        r.append(" and address ");
        append_int(&mut r, self.address as i64);
        assert(r@ =~= self.text());
        r
    }
}

} // verus!
