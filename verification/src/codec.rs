//! The sensor value codec: one encoded sample is the sensor's byte width
//! of little-endian unsigned integer, read from a byte buffer at a cursor
//! position.

use vstd::prelude::*;

use crate::sensor::Sensor;
use crate::ProtocolError;

verus! {

/// The unsigned little-endian 16-bit value stored at position `i`.
pub open spec fn le16_at(b: Seq<u8>, i: int) -> int {
    b[i] + 0x100 * b[i + 1]
}

/// The raw integer of one encoded sample of `sensor` at position `pos`:
/// one byte for a one-byte sensor, a little-endian pair otherwise.
pub open spec fn raw_at(sensor: Sensor, b: Seq<u8>, pos: int) -> int {
    if sensor.width_spec() == 1 {
        b[pos] as int
    } else {
        le16_at(b, pos)
    }
}

/// Decode one sample of `sensor` from `buf` at cursor `pos`.  On success
/// the raw value and the advanced cursor come back; if fewer bytes remain
/// than the sensor's width the decode fails with `BufferUnderflow` and
/// consumes nothing.
pub fn decode_value(sensor: Sensor, buf: &Vec<u8>, pos: usize) -> (r: Result<
    (u16, usize),
    ProtocolError,
>)
    ensures
        match r {
            Ok(p) => pos + sensor.width_spec() <= buf@.len() && p.0 == raw_at(
                sensor,
                buf@,
                pos as int,
            ) && p.1 == pos + sensor.width_spec(),
            Err(e) => e == ProtocolError::BufferUnderflow && pos + sensor.width_spec()
                > buf@.len(),
        },
{
    let w = sensor.width();
    if pos > buf.len() || buf.len() - pos < w {
        return Err(ProtocolError::BufferUnderflow);
    }
    if w == 1 {
        let raw = buf[pos] as u16;
        Ok((raw, pos + 1))
    } else {
        let lo = buf[pos] as u16;
        let hi = buf[pos + 1] as u16;
        Ok((lo + 0x100 * hi, pos + 2))
    }
}

} // verus!
