//! The current-reading decoder: one fixed-layout packet holding the four
//! sensors' present values followed by battery, status, the measurement
//! interval and the seconds since the last measurement.

use vstd::prelude::*;

use crate::codec::decode_value;
use crate::codec::le16_at;
use crate::sensor::Sensor;
use crate::ProtocolError;

verus! {

/// Total length of the current-reading packet in bytes.
pub const CURRENT_READING_LEN: usize = 13;

/// The device's current reading.  Temperature and pressure keep the raw
/// integer of the wire; dividing by the sensor's scale (20 and 10) gives
/// the physical value and is left to the caller.
#[derive(Clone, Copy, Debug, PartialEq, Eq, Structural)]
pub struct Snapshot {
    pub co2: u16,
    pub temperature_raw: u16,
    pub pressure_raw: u16,
    pub humidity: u8,
    pub battery: u8,
    pub status: u8,
    pub interval: u16,
    pub seconds_passed: u16,
}

/// Decode the current-reading packet: CO2, temperature, pressure,
/// humidity (each through the sensor codec), then battery, status,
/// interval and seconds passed.  A buffer shorter than the full packet
/// fails with `BufferUnderflow` and yields no partial result.
pub fn decode_snapshot(buf: &Vec<u8>) -> (r: Result<Snapshot, ProtocolError>)
    ensures
        match r {
            Ok(s) => buf@.len() >= CURRENT_READING_LEN && s.co2 == le16_at(buf@, 0)
                && s.temperature_raw == le16_at(buf@, 2) && s.pressure_raw == le16_at(buf@, 4)
                && s.humidity == buf@[6] && s.battery == buf@[7] && s.status == buf@[8]
                && s.interval == le16_at(buf@, 9) && s.seconds_passed == le16_at(buf@, 11),
            Err(e) => e == ProtocolError::BufferUnderflow && buf@.len() < CURRENT_READING_LEN,
        },
{
    if buf.len() < CURRENT_READING_LEN {
        return Err(ProtocolError::BufferUnderflow);
    }
    let (co2, pos) = match decode_value(Sensor::CO2, buf, 0) {
        Ok(p) => p,
        Err(e) => { return Err(e) },
    };
    let (temperature_raw, pos) = match decode_value(Sensor::Temperature, buf, pos) {
        Ok(p) => p,
        Err(e) => { return Err(e) },
    };
    let (pressure_raw, pos) = match decode_value(Sensor::Pressure, buf, pos) {
        Ok(p) => p,
        Err(e) => { return Err(e) },
    };
    let (humidity16, pos) = match decode_value(Sensor::Humidity, buf, pos) {
        Ok(p) => p,
        Err(e) => { return Err(e) },
    };
    let humidity = humidity16 as u8;
    let battery = buf[pos];
    let status = buf[pos + 1];
    let interval = buf[pos + 2] as u16 + 0x100 * (buf[pos + 3] as u16);
    let seconds_passed = buf[pos + 4] as u16 + 0x100 * (buf[pos + 5] as u16);
    Ok(
        Snapshot {
            co2,
            temperature_raw,
            pressure_raw,
            humidity,
            battery,
            status,
            interval,
            seconds_passed,
        },
    )
}

} // verus!
