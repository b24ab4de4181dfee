//! The registers of the HTS221 that the driver touches, and their fields.
//!
//! Reserved bits are dropped when a register is decoded and written as zero
//! when it is encoded.

use crate::hal::Active;
use vstd::prelude::*;

verus! {

/// Power, block data update and output data rate.
pub const CTRL_REG1: u8 = 0x20;

/// Reboot, heater and one-shot trigger.
pub const CTRL_REG2: u8 = 0x21;

/// Configuration of the data-ready pin.
pub const CTRL_REG3: u8 = 0x22;

/// Which outputs hold a reading that was not read yet.
pub const STATUS_REG: u8 = 0x27;

/// Raw humidity, two bytes, low byte first.
pub const HUMIDITY_OUT: u8 = 0x28;

/// Raw temperature, two bytes, low byte first.
pub const TEMP_OUT: u8 = 0x2A;

/// The factory calibration block, sixteen bytes.
pub const CALIBRATION: u8 = 0x30;

/// Set in a register number to make the sensor step through consecutive
/// registers within one transfer.
pub const AUTO_INCREMENT: u8 = 0x80;

/// The byte at `index` of a response; a byte that the transfer did not
/// deliver reads as zero.
pub open spec fn byte_at(response: Seq<u8>, index: int) -> u8 {
    if 0 <= index < response.len() {
        response[index]
    } else {
        0
    }
}

/// The byte at `index` of a response, zero where the response is too short.
pub fn byte(response: &[u8], index: usize) -> (value: u8)
    ensures
        value == byte_at(response@, index as int),
{
    if index < response.len() {
        response[index]
    } else {
        0
    }
}

/// The signed sixteen-bit number whose two's-complement bytes are `low` and
/// `high`.
pub open spec fn word(low: u8, high: u8) -> int {
    if high >= 128 {
        low + 256 * high - 65536
    } else {
        low + 256 * high
    }
}

/// Decodes a signed sixteen-bit output from its two bytes, low byte first.
pub fn decode_word(low: u8, high: u8) -> (value: i16)
    ensures
        value == word(low, high),
{
    let raw: i32 = low as i32 + 256 * (high as i32);
    if high >= 128 {
        (raw - 65536) as i16
    } else {
        raw as i16
    }
}

/// How often the sensor takes a reading by itself.
#[derive(Copy, Clone, Debug, PartialEq, Eq, Structural)]
pub enum OutputDataRate {
    OneShot,
    Hz1,
    Hz7,
    Hz12Point5,
}

/// When the output registers take a new reading.
#[derive(Copy, Clone, Debug, PartialEq, Eq, Structural)]
pub enum BlockDataUpdate {
    /// At any time, also between the reads of the two bytes of one output.
    Continuous,
    /// Only once both bytes of an output were read.
    MsbLsbReading,
}

/// The fields of CTRL_REG1.
#[derive(Copy, Clone, Debug, PartialEq, Eq, Structural)]
pub struct Ctrl1 {
    /// Bit 7: the sensor measures; when clear it is powered down.
    pub power_active: bool,
    /// Bit 2.
    pub block_data_update: BlockDataUpdate,
    /// Bits 1 and 0.
    pub output_data_rate: OutputDataRate,
}

impl Ctrl1 {
    /// The fields that the bits of `value` stand for.
    pub open spec fn decode(value: u8) -> Ctrl1 {
        Ctrl1 {
            power_active: value & 0x80 != 0,
            block_data_update: if value & 0x04 != 0 {
                BlockDataUpdate::MsbLsbReading
            } else {
                BlockDataUpdate::Continuous
            },
            output_data_rate: if value & 0x03 == 0 {
                OutputDataRate::OneShot
            } else if value & 0x03 == 1 {
                OutputDataRate::Hz1
            } else if value & 0x03 == 2 {
                OutputDataRate::Hz7
            } else {
                OutputDataRate::Hz12Point5
            },
        }
    }

    /// The register value that stands for the fields.
    pub open spec fn encode(self) -> u8 {
        (if self.power_active { 0x80u8 } else { 0u8 })
        | (match self.block_data_update {
            BlockDataUpdate::MsbLsbReading => 0x04u8,
            BlockDataUpdate::Continuous => 0u8,
        })
        | (match self.output_data_rate {
            OutputDataRate::OneShot => 0u8,
            OutputDataRate::Hz1 => 1u8,
            OutputDataRate::Hz7 => 2u8,
            OutputDataRate::Hz12Point5 => 3u8,
        })
    }

    /// Decodes the register.
    pub fn from_byte(value: u8) -> (fields: Self)
        ensures
            fields == Self::decode(value),
    {
        Ctrl1 {
            power_active: value & 0x80 != 0,
            block_data_update: if value & 0x04 != 0 {
                BlockDataUpdate::MsbLsbReading
            } else {
                BlockDataUpdate::Continuous
            },
            output_data_rate: if value & 0x03 == 0 {
                OutputDataRate::OneShot
            } else if value & 0x03 == 1 {
                OutputDataRate::Hz1
            } else if value & 0x03 == 2 {
                OutputDataRate::Hz7
            } else {
                OutputDataRate::Hz12Point5
            },
        }
    }

    /// Encodes the register.
    pub fn to_byte(&self) -> (value: u8)
        ensures
            value == self.encode(),
            Self::decode(value) == *self,
    {
        proof {
            self.lemma_round_trip();
        }
        let power: u8 = if self.power_active { 0x80 } else { 0 };
        let update: u8 = match self.block_data_update {
            BlockDataUpdate::MsbLsbReading => 0x04,
            BlockDataUpdate::Continuous => 0,
        };
        let rate: u8 = match self.output_data_rate {
            OutputDataRate::OneShot => 0,
            OutputDataRate::Hz1 => 1,
            OutputDataRate::Hz7 => 2,
            OutputDataRate::Hz12Point5 => 3,
        };
        power | update | rate
    }

    /// Encoding loses nothing: decoding what was encoded gives the fields
    /// back.
    pub proof fn lemma_round_trip(self)
        ensures
            Self::decode(self.encode()) == self,
    {
        let p: u8 = if self.power_active { 0x80 } else { 0 };
        let b: u8 = match self.block_data_update {
            BlockDataUpdate::MsbLsbReading => 0x04,
            BlockDataUpdate::Continuous => 0,
        };
        let r: u8 = match self.output_data_rate {
            OutputDataRate::OneShot => 0,
            OutputDataRate::Hz1 => 1,
            OutputDataRate::Hz7 => 2,
            OutputDataRate::Hz12Point5 => 3,
        };
        assert((p == 0 || p == 0x80) && (b == 0 || b == 0x04) && r <= 3 ==> (p | b | r) & 0x80 == p && (p | b
            | r) & 0x04 == b && (p | b | r) & 0x03 == r) by (bit_vector);
    }

    /// The same register with the sensor switched on.
    pub fn power_active(self) -> (fields: Self)
        ensures
            fields == (Ctrl1 { power_active: true, ..self }),
    {
        Ctrl1 { power_active: true, ..self }
    }

    /// The same register with the given output data rate.
    pub fn output_data_rate(self, rate: OutputDataRate) -> (fields: Self)
        ensures
            fields == (Ctrl1 { output_data_rate: rate, ..self }),
    {
        Ctrl1 { output_data_rate: rate, ..self }
    }

    /// The same register with the given block data update mode.
    pub fn block_data_update(self, mode: BlockDataUpdate) -> (fields: Self)
        ensures
            fields == (Ctrl1 { block_data_update: mode, ..self }),
    {
        Ctrl1 { block_data_update: mode, ..self }
    }
}

/// The fields of CTRL_REG2.
#[derive(Copy, Clone, Debug, PartialEq, Eq, Structural)]
pub struct Ctrl2 {
    /// Bit 7: reload the calibration from the sensor's own memory.
    pub boot: bool,
    /// Bit 1.
    pub heater: bool,
    /// Bit 0: take one reading now.
    pub one_shot: bool,
}

impl Ctrl2 {
    /// The fields that the bits of `value` stand for.
    pub open spec fn decode(value: u8) -> Ctrl2 {
        Ctrl2 { boot: value & 0x80 != 0, heater: value & 0x02 != 0, one_shot: value & 0x01 != 0 }
    }

    /// The register value that stands for the fields.
    pub open spec fn encode(self) -> u8 {
        (if self.boot { 0x80u8 } else { 0u8 }) | (if self.heater { 0x02u8 } else { 0u8 }) | (if self.one_shot {
            0x01u8
        } else {
            0u8
        })
    }

    /// Decodes the register.
    pub fn from_byte(value: u8) -> (fields: Self)
        ensures
            fields == Self::decode(value),
    {
        Ctrl2 { boot: value & 0x80 != 0, heater: value & 0x02 != 0, one_shot: value & 0x01 != 0 }
    }

    /// Encodes the register.
    pub fn to_byte(&self) -> (value: u8)
        ensures
            value == self.encode(),
            Self::decode(value) == *self,
    {
        proof {
            self.lemma_round_trip();
        }
        let boot: u8 = if self.boot { 0x80 } else { 0 };
        let heater: u8 = if self.heater { 0x02 } else { 0 };
        let shot: u8 = if self.one_shot { 0x01 } else { 0 };
        boot | heater | shot
    }

    /// Encoding loses nothing: decoding what was encoded gives the fields
    /// back.
    pub proof fn lemma_round_trip(self)
        ensures
            Self::decode(self.encode()) == self,
    {
        let b: u8 = if self.boot { 0x80 } else { 0 };
        let h: u8 = if self.heater { 0x02 } else { 0 };
        let s: u8 = if self.one_shot { 0x01 } else { 0 };
        assert((b == 0 || b == 0x80) && (h == 0 || h == 0x02) && (s == 0 || s == 0x01) ==> (b | h | s) & 0x80
            == b && (b | h | s) & 0x02 == h && (b | h | s) & 0x01 == s) by (bit_vector);
    }

    /// The same register with the reboot requested.
    pub fn boot(self) -> (fields: Self)
        ensures
            fields == (Ctrl2 { boot: true, ..self }),
    {
        Ctrl2 { boot: true, ..self }
    }
}

/// How the data-ready pin is driven.
#[derive(Copy, Clone, Debug, PartialEq, Eq, Structural)]
pub enum PinMode {
    PushPull,
    OpenDrain,
}

/// The fields of CTRL_REG3.
#[derive(Copy, Clone, Debug, PartialEq, Eq, Structural)]
pub struct Ctrl3 {
    /// Bit 7: clear for active-high, set for active-low.
    pub active: Active,
    /// Bit 6.
    pub mode: PinMode,
    /// Bit 2: the pin signals that a reading is ready.
    pub enable: bool,
}

impl Ctrl3 {
    /// The fields that the bits of `value` stand for.
    pub open spec fn decode(value: u8) -> Ctrl3 {
        Ctrl3 {
            active: if value & 0x80 != 0 {
                Active::Low
            } else {
                Active::High
            },
            mode: if value & 0x40 != 0 {
                PinMode::OpenDrain
            } else {
                PinMode::PushPull
            },
            enable: value & 0x04 != 0,
        }
    }

    /// The register value that stands for the fields.
    pub open spec fn encode(self) -> u8 {
        (match self.active {
            Active::Low => 0x80u8,
            Active::High => 0u8,
        }) | (match self.mode {
            PinMode::OpenDrain => 0x40u8,
            PinMode::PushPull => 0u8,
        }) | (if self.enable { 0x04u8 } else { 0u8 })
    }

    /// Decodes the register.
    pub fn from_byte(value: u8) -> (fields: Self)
        ensures
            fields == Self::decode(value),
    {
        Ctrl3 {
            active: if value & 0x80 != 0 {
                Active::Low
            } else {
                Active::High
            },
            mode: if value & 0x40 != 0 {
                PinMode::OpenDrain
            } else {
                PinMode::PushPull
            },
            enable: value & 0x04 != 0,
        }
    }

    /// Encodes the register.
    pub fn to_byte(&self) -> (value: u8)
        ensures
            value == self.encode(),
            Self::decode(value) == *self,
    {
        proof {
            self.lemma_round_trip();
        }
        let active: u8 = match self.active {
            Active::Low => 0x80,
            Active::High => 0,
        };
        let mode: u8 = match self.mode {
            PinMode::OpenDrain => 0x40,
            PinMode::PushPull => 0,
        };
        let enable: u8 = if self.enable { 0x04 } else { 0 };
        active | mode | enable
    }

    /// Encoding loses nothing: decoding what was encoded gives the fields
    /// back.
    pub proof fn lemma_round_trip(self)
        ensures
            Self::decode(self.encode()) == self,
    {
        let a: u8 = match self.active {
            Active::Low => 0x80,
            Active::High => 0,
        };
        let m: u8 = match self.mode {
            PinMode::OpenDrain => 0x40,
            PinMode::PushPull => 0,
        };
        let e: u8 = if self.enable { 0x04 } else { 0 };
        assert((a == 0 || a == 0x80) && (m == 0 || m == 0x40) && (e == 0 || e == 0x04) ==> (a | m | e) & 0x80
            == a && (a | m | e) & 0x40 == m && (a | m | e) & 0x04 == e) by (bit_vector);
    }

    /// The same register with the data-ready signal switched on or off.
    pub fn enable(self, enable: bool) -> (fields: Self)
        ensures
            fields == (Ctrl3 { enable, ..self }),
    {
        Ctrl3 { enable, ..self }
    }
}

/// The fields of STATUS_REG.
#[derive(Copy, Clone, Debug, PartialEq, Eq, Structural)]
pub struct Status {
    /// Bit 1: a humidity reading waits to be read.
    pub humidity_available: bool,
    /// Bit 0: a temperature reading waits to be read.
    pub temperature_available: bool,
}

impl Status {
    /// The fields that the bits of `value` stand for.
    pub open spec fn decode(value: u8) -> Status {
        Status { humidity_available: value & 0x02 != 0, temperature_available: value & 0x01 != 0 }
    }

    /// Decodes the register.
    pub fn from_byte(value: u8) -> (fields: Self)
        ensures
            fields == Self::decode(value),
    {
        Status { humidity_available: value & 0x02 != 0, temperature_available: value & 0x01 != 0 }
    }

    /// Whether any reading waits to be read.
    pub fn any_available(&self) -> (any: bool)
        ensures
            any == (self.humidity_available || self.temperature_available),
    {
        self.humidity_available || self.temperature_available
    }
}

} // verus!
