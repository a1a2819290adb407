//! The four measurements the device stores, with the fixed decode table
//! of each: its protocol id, the byte width of one encoded value, and the
//! divisor that turns the raw little-endian integer into the physical
//! quantity.

use vstd::prelude::*;

verus! {

/// One of the device's sensors.
#[derive(Clone, Copy, Debug, PartialEq, Eq, Structural)]
pub enum Sensor {
    Temperature,
    Humidity,
    Pressure,
    CO2,
}

impl Sensor {
    /// The id under which this sensor appears in frames and requests.
    pub open spec fn id_spec(self) -> u8 {
        match self {
            Sensor::Temperature => 1,
            Sensor::Humidity => 2,
            Sensor::Pressure => 3,
            Sensor::CO2 => 4,
        }
    }

    /// Byte width of one encoded sample of this sensor.
    pub open spec fn width_spec(self) -> int {
        match self {
            Sensor::Temperature => 2,
            Sensor::Humidity => 1,
            Sensor::Pressure => 2,
            Sensor::CO2 => 2,
        }
    }

    /// Divisor applied to the raw value to obtain the physical one
    /// (temperature is stored in twentieths, pressure in tenths).
    pub open spec fn scale_spec(self) -> u16 {
        match self {
            Sensor::Temperature => 20,
            Sensor::Humidity => 1,
            Sensor::Pressure => 10,
            Sensor::CO2 => 1,
        }
    }

    pub fn id(self) -> (r: u8)
        ensures
            r == self.id_spec(),
    {
        match self {
            Sensor::Temperature => 1,
            Sensor::Humidity => 2,
            Sensor::Pressure => 3,
            Sensor::CO2 => 4,
        }
    }

    pub fn width(self) -> (r: usize)
        ensures
            r == self.width_spec(),
    {
        match self {
            Sensor::Temperature => 2,
            Sensor::Humidity => 1,
            Sensor::Pressure => 2,
            Sensor::CO2 => 2,
        }
    }

    pub fn scale(self) -> (r: u16)
        ensures
            r == self.scale_spec(),
    {
        match self {
            Sensor::Temperature => 20,
            Sensor::Humidity => 1,
            Sensor::Pressure => 10,
            Sensor::CO2 => 1,
        }
    }
}

} // verus!
