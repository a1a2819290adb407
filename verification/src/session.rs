//! The pure pieces of a device session: the fixed order in which the
//! sensors' histories are retrieved, and the decoder of the declared
//! stored-sample count.  The transport work around them — reads, the
//! range-request write, the notification loop — is the caller's.

use vstd::prelude::*;

use crate::codec::le16_at;
use crate::sensor::Sensor;
use crate::ProtocolError;

verus! {

/// The fixed order in which one session retrieves the sensors'
/// histories; one retrieval completes fully before the next begins.
pub fn retrieval_order() -> (r: Vec<Sensor>)
    ensures
        r@ == seq![Sensor::Temperature, Sensor::Pressure, Sensor::Humidity, Sensor::CO2],
{
    let mut out: Vec<Sensor> = Vec::new();
    out.push(Sensor::Temperature);
    out.push(Sensor::Pressure);
    out.push(Sensor::Humidity);
    out.push(Sensor::CO2);
    proof {
        assert(out@ =~= seq![Sensor::Temperature, Sensor::Pressure, Sensor::Humidity, Sensor::CO2]);
    }
    out
}

/// Decode the declared stored-sample count: a little-endian 16-bit value
/// at the start of the stored-readings characteristic's payload.
pub fn parse_sample_count(buf: &Vec<u8>) -> (r: Result<u16, ProtocolError>)
    ensures
        match r {
            Ok(n) => buf@.len() >= 2 && n == le16_at(buf@, 0),
            Err(e) => e == ProtocolError::BufferUnderflow && buf@.len() < 2,
        },
{
    if buf.len() < 2 {
        return Err(ProtocolError::BufferUnderflow);
    }
    Ok(buf[0] as u16 + 0x100 * (buf[1] as u16))
}

} // verus!
