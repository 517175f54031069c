//! EEPROM helpers: distance thresholds stored as two big-endian bytes.
//!
//! The register addresses are [`EepromRegister`]'s.

use vstd::prelude::*;

pub use crate::protocol::EepromRegister;
use crate::protocol::be_u16;

verus! {

/// Encodes a distance threshold (in cm) into `(high_byte, low_byte)`, to be
/// written to `LargerDist` and `LessDist`.
pub fn encode_threshold(distance_cm: u16) -> (r: (u8, u8))
    ensures
        r.0 == distance_cm / 256,
        r.1 == distance_cm % 256,
{
    crate::protocol::encode_threshold(distance_cm)
}

/// Decodes a distance threshold from its two EEPROM bytes.
pub fn decode_threshold(high: u8, low: u8) -> (r: u16)
    ensures
        r == be_u16(high, low),
        r == high * 256 + low,
{
    crate::protocol::decode_threshold(high, low)
}

} // verus!
