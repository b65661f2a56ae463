use crate::error::DiscoveryError;
use crate::record::Data;
use vstd::prelude::*;

verus! {

/// Carbon dioxide in ppm: the little-endian word at offset 0.
pub open spec fn decoded_co2(b: Seq<u8>) -> int {
    b[0] + 256 * b[1]
}

/// Temperature in twentieths of a degree: the little-endian word at offset 2.
pub open spec fn decoded_temperature(b: Seq<u8>) -> int {
    b[2] + 256 * b[3]
}

/// Pressure in tenths of a hectopascal: the little-endian word at offset 4.
pub open spec fn decoded_pressure(b: Seq<u8>) -> int {
    b[4] + 256 * b[5]
}

/// Relative humidity in percent: the byte at offset 6.
pub open spec fn decoded_humidity(b: Seq<u8>) -> int {
    b[6] as int
}

/// Battery level in percent: the byte at offset 7.
pub open spec fn decoded_battery(b: Seq<u8>) -> int {
    b[7] as int
}

/// Decodes the sensor characteristic's payload.
///
/// Bytes past the eighth are ignored; a shorter payload is malformed.
pub fn decode(bytes: &[u8]) -> (r: Result<Data, DiscoveryError>)
    ensures
        r is Ok <==> bytes@.len() >= 8,
        r is Err ==> r == Err::<Data, DiscoveryError>(DiscoveryError::MalformedPayload),
        r matches Ok(d) ==> {
            &&& d.co2 == decoded_co2(bytes@)
            &&& d.temperature_twentieths == decoded_temperature(bytes@)
            &&& d.pressure_tenths == decoded_pressure(bytes@)
            &&& d.humidity == decoded_humidity(bytes@)
            &&& d.battery == decoded_battery(bytes@)
        },
{
    if bytes.len() < 8 {
        return Err(DiscoveryError::MalformedPayload);
    }
    Ok(Data {
        co2: bytes[0] as u32 + (bytes[1] as u32) * 256,
        temperature_twentieths: bytes[2] as u32 + (bytes[3] as u32) * 256,
        pressure_tenths: bytes[4] as u32 + (bytes[5] as u32) * 256,
        humidity: bytes[6] as u32,
        battery: bytes[7] as u32,
    })
}

} // verus!
