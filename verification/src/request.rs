//! The history range-request encoder: the 8-byte command that asks the
//! device to start pushing the stored samples of one sensor.

use vstd::prelude::*;

use crate::codec::le16_at;
use crate::sensor::Sensor;

verus! {

/// Leading command byte of a range request.  Its meaning is undocumented
/// by the device; it is kept verbatim as observed on the wire.
pub const RANGE_REQUEST_COMMAND: u8 = 0x82;

/// The 8-byte wire form of a range request: command byte, sensor id, two
/// reserved zero bytes, then start and end index, little-endian.
pub open spec fn range_request_bytes(sensor: Sensor, start: u16, end: u16) -> Seq<u8> {
    seq![
        RANGE_REQUEST_COMMAND,
        sensor.id_spec(),
        0u8,
        0u8,
        (start as int % 0x100) as u8,
        (start as int / 0x100) as u8,
        (end as int % 0x100) as u8,
        (end as int / 0x100) as u8,
    ]
}

/// Encode the range request for `sensor` covering the 1-based sample
/// indices `start..=end`.  Requesting the full history uses start 1 and
/// end 0xFFFF.  The start and end fields of the result read back as the
/// arguments.
pub fn encode_range_request(sensor: Sensor, start: u16, end: u16) -> (r: Vec<u8>)
    ensures
        r@ == range_request_bytes(sensor, start, end),
        r@.len() == 8,
        le16_at(r@, 4) == start,
        le16_at(r@, 6) == end,
{
    let mut out: Vec<u8> = Vec::new();
    out.push(RANGE_REQUEST_COMMAND);
    out.push(sensor.id());
    out.push(0);
    out.push(0);
    out.push((start % 0x100) as u8);
    out.push((start / 0x100) as u8);
    out.push((end % 0x100) as u8);
    out.push((end / 0x100) as u8);
    proof {
        assert(out@ =~= range_request_bytes(sensor, start, end));
    }
    out
}

} // verus!
