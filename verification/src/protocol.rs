//! Encoding and decoding of URM37 UART frames.
//!
//! Every command and every response is exactly 4 bytes:
//! `[CMD, DATA0, DATA1, CHECKSUM]`, where `CHECKSUM` is the low byte of
//! `CMD + DATA0 + DATA1`.

use vstd::prelude::*;

verus! {

/// Value returned by the sensor when a distance or temperature reading is invalid.
pub const INVALID_DIST_TEMP: u16 = 0xFFFF;

/// Command bytes of the protocol.
#[derive(Debug, Clone, Copy, PartialEq, Eq)]
pub enum Command {
    /// Request a temperature measurement (`0x11`).
    Temperature,
    /// Request a distance measurement (`0x22`).
    Distance,
    /// Read an internal EEPROM register (`0x33`).
    EepromRead,
    /// Write an internal EEPROM register (`0x44`).
    EepromWrite,
}

impl Command {
    /// The byte that stands for the command on the wire.
    pub open spec fn byte(self) -> u8 {
        match self {
            Command::Temperature => 0x11,
            Command::Distance => 0x22,
            Command::EepromRead => 0x33,
            Command::EepromWrite => 0x44,
        }
    }

    /// The command byte sent on the wire.
    pub fn to_u8(self) -> (b: u8)
        ensures
            b == self.byte(),
    {
        match self {
            Command::Temperature => 0x11,
            Command::Distance => 0x22,
            Command::EepromRead => 0x33,
            Command::EepromWrite => 0x44,
        }
    }
}

/// Addresses of the sensor's EEPROM configuration registers.
///
/// The variants are declared in address order, so `reg as u8` is the address.
#[derive(Debug, Clone, Copy, PartialEq, Eq)]
pub enum EepromRegister {
    /// Address `0x00`: larger distance threshold (comparator mode).
    LargerDist,
    /// Address `0x01`: smaller distance threshold (comparator mode).
    LessDist,
    /// Address `0x02`: measurement mode (`0xAA` autonomous, `0xBB` passive).
    MeasureMode,
    /// Address `0x03`: serial level (`0x00` TTL, `0x01` RS232).
    SerialLevelMode,
    /// Address `0x04`: autonomous measurement interval, in units of 25 ms.
    AutoMeasureTime,
}

impl EepromRegister {
    /// The register's address.
    pub open spec fn address(self) -> u8 {
        match self {
            EepromRegister::LargerDist => 0x00,
            EepromRegister::LessDist => 0x01,
            EepromRegister::MeasureMode => 0x02,
            EepromRegister::SerialLevelMode => 0x03,
            EepromRegister::AutoMeasureTime => 0x04,
        }
    }

    /// The register's address, as sent in `DATA0`.
    pub fn to_u8(self) -> (b: u8)
        ensures
            b == self.address(),
    {
        match self {
            EepromRegister::LargerDist => 0x00,
            EepromRegister::LessDist => 0x01,
            EepromRegister::MeasureMode => 0x02,
            EepromRegister::SerialLevelMode => 0x03,
            EepromRegister::AutoMeasureTime => 0x04,
        }
    }
}

/// Values of the measurement mode register.
#[derive(Debug, Clone, Copy, PartialEq, Eq)]
pub enum MeasureMode {
    /// The sensor measures on its own at the configured interval (`0xAA`).
    Auto,
    /// The sensor measures only when asked (`0xBB`).
    Passive,
}

impl MeasureMode {
    /// The register value of the mode.
    pub open spec fn value(self) -> u8 {
        match self {
            MeasureMode::Auto => 0xAA,
            MeasureMode::Passive => 0xBB,
        }
    }

    /// The register value of the mode.
    pub fn to_u8(self) -> (b: u8)
        ensures
            b == self.value(),
    {
        match self {
            MeasureMode::Auto => 0xAA,
            MeasureMode::Passive => 0xBB,
        }
    }
}

/// Values of the serial level register.
#[derive(Debug, Clone, Copy, PartialEq, Eq)]
pub enum SerialLevelMode {
    /// TTL levels (`0x00`).
    Ttl,
    /// RS232 levels (`0x01`).
    Rs232,
}

impl SerialLevelMode {
    /// The register value of the level.
    pub open spec fn value(self) -> u8 {
        match self {
            SerialLevelMode::Ttl => 0x00,
            SerialLevelMode::Rs232 => 0x01,
        }
    }

    /// The register value of the level.
    pub fn to_u8(self) -> (b: u8)
        ensures
            b == self.value(),
    {
        match self {
            SerialLevelMode::Ttl => 0x00,
            SerialLevelMode::Rs232 => 0x01,
        }
    }
}

// ===== Mathematical model =====

/// The 16-bit big-endian value of two bytes.
pub open spec fn be_u16(high: u8, low: u8) -> u16 {
    (high * 256 + low) as u16
}

/// The low byte of `cmd + data0 + data1`.
pub open spec fn checksum_of(cmd: u8, data0: u8, data1: u8) -> u8 {
    ((cmd + data0 + data1) % 256) as u8
}

/// The four bytes of a frame with the given command and data bytes.
pub open spec fn frame_bytes(cmd: u8, data0: u8, data1: u8) -> Seq<u8> {
    seq![cmd, data0, data1, checksum_of(cmd, data0, data1)]
}

/// Four bytes whose last byte is the checksum of the first three.
pub open spec fn checksum_ok(bytes: Seq<u8>) -> bool {
    &&& bytes.len() == 4
    &&& bytes[3] == checksum_of(bytes[0], bytes[1], bytes[2])
}

/// The signed temperature, in tenths of a degree, that `DATA0:DATA1` encode
/// when they are not the invalid-reading sentinel `0xFFFF`: the upper nibble of `DATA0` is the sign (non-zero means negative), the
/// lower 12 bits are the magnitude.
pub open spec fn temperature_tenths(data0: u8, data1: u8) -> int {
    let magnitude = (data0 % 16) * 256 + data1;
    if data0 >= 16 {
        -magnitude
    } else {
        magnitude
    }
}

// ===== EEPROM helpers =====

/// Encodes a distance threshold (in cm) into two EEPROM bytes, `(high, low)`.
pub fn encode_threshold(distance_cm: u16) -> (r: (u8, u8))
    ensures
        r.0 == distance_cm / 256,
        r.1 == distance_cm % 256,
{
    assert((distance_cm >> 8u16) as u8 == distance_cm / 256) by (bit_vector);
    assert((distance_cm & 0xFFu16) as u8 == distance_cm % 256) by (bit_vector);
    ((distance_cm >> 8) as u8, (distance_cm & 0xFF) as u8)
}

/// Decodes a distance threshold from two EEPROM bytes (big-endian).
pub fn decode_threshold(high: u8, low: u8) -> (r: u16)
    ensures
        r == be_u16(high, low),
        r == high * 256 + low,
{
    (high as u16) * 256 + (low as u16)
}

/// Encoding a threshold and decoding the two bytes gives the threshold back.
pub proof fn lemma_threshold_roundtrip(distance_cm: u16)
    ensures
        be_u16((distance_cm / 256) as u8, (distance_cm % 256) as u8) == distance_cm,
{
}

/// Decoding two threshold bytes and encoding the value gives the same bytes back.
pub proof fn lemma_threshold_bytes_roundtrip(high: u8, low: u8)
    ensures
        be_u16(high, low) / 256 == high,
        be_u16(high, low) % 256 == low,
{
}

// ===== Frames =====

/// A 4-byte URM37 frame whose checksum is valid.
///
/// Frames are only made by [`Frame::build`] and [`Frame::parse`], so every
/// value of this type carries a correct checksum.
#[derive(Debug, Clone, Copy, PartialEq, Eq)]
pub struct Frame([u8; 4]);

impl View for Frame {
    type V = Seq<u8>;

    closed spec fn view(&self) -> Seq<u8> {
        self.0@
    }
}

impl Frame {
    #[verifier::type_invariant]
    spec fn inv(self) -> bool {
        checksum_ok(self.0@)
    }

    /// The low byte of the sum of the three bytes.
    pub fn checksum(cmd: u8, data0: u8, data1: u8) -> (s: u8)
        ensures
            s == checksum_of(cmd, data0, data1),
            s as int == (cmd as int + data0 as int + data1 as int) % 256,
    {
        cmd.wrapping_add(data0).wrapping_add(data1)
    }

    /// Builds a frame from a command and two data bytes, with its checksum.
    pub fn build(cmd: Command, data0: u8, data1: u8) -> (f: Self)
        ensures
            f@ == frame_bytes(cmd.byte(), data0, data1),
    {
        let cmd_byte = cmd.to_u8();
        let sum = Self::checksum(cmd_byte, data0, data1);
        let raw = [cmd_byte, data0, data1, sum];
        assert(raw@ =~= frame_bytes(cmd_byte, data0, data1));
        Frame(raw)
    }

    /// The distance request `[0x22, 0x00, 0x00, 0x22]`.
    pub fn distance_request() -> (f: Self)
        ensures
            f@ == frame_bytes(0x22, 0x00, 0x00),
            f@ == seq![0x22u8, 0x00u8, 0x00u8, 0x22u8],
    {
        Self::build(Command::Distance, 0x00, 0x00)
    }

    /// The temperature request `[0x11, 0x00, 0x00, 0x11]`.
    pub fn temperature_request() -> (f: Self)
        ensures
            f@ == frame_bytes(0x11, 0x00, 0x00),
            f@ == seq![0x11u8, 0x00u8, 0x00u8, 0x11u8],
    {
        Self::build(Command::Temperature, 0x00, 0x00)
    }

    /// A request to read one EEPROM register.
    pub fn eeprom_read_request(register: EepromRegister) -> (f: Self)
        ensures
            f@ == frame_bytes(0x33, register.address(), 0x00),
    {
        let address = register.to_u8();
        Self::build(Command::EepromRead, address, 0x00)
    }

    /// A request to write `value` into one EEPROM register.
    pub fn eeprom_write_request(register: EepromRegister, value: u8) -> (f: Self)
        ensures
            f@ == frame_bytes(0x44, register.address(), value),
    {
        let address = register.to_u8();
        Self::build(Command::EepromWrite, address, value)
    }

    /// Checks the checksum of 4 received bytes.
    ///
    /// Returns the frame when the checksum is correct, and `(expected, got)`
    /// otherwise.
    pub fn parse(raw: [u8; 4]) -> (r: Result<Self, (u8, u8)>)
        ensures
            r is Ok <==> checksum_ok(raw@),
            r is Ok <==> raw@[3] as int == (raw@[0] as int + raw@[1] as int + raw@[2] as int) % 256,
            r matches Ok(f) ==> f@ == raw@,
            r matches Err(e) ==> e.0 == checksum_of(raw@[0], raw@[1], raw@[2]) && e.1 == raw@[3],
    {
        let expected = Self::checksum(raw[0], raw[1], raw[2]);
        let got = raw[3];
        if expected == got {
            Ok(Frame(raw))
        } else {
            Err((expected, got))
        }
    }

    /// Decodes a distance response: `DATA0:DATA1` is the distance in cm
    /// (big-endian), and `0xFFFF` marks an invalid reading.
    pub fn decode_distance(&self) -> (r: Option<u16>)
        ensures
            r == (if be_u16(self@[1], self@[2]) == INVALID_DIST_TEMP {
                None
            } else {
                Some(be_u16(self@[1], self@[2]))
            }),
    {
        let raw = (self.0[1] as u16) * 256 + (self.0[2] as u16);
        if raw == INVALID_DIST_TEMP {
            None
        } else {
            Some(raw)
        }
    }

    /// Decodes a temperature response, in tenths of a degree Celsius.
    ///
    /// `DATA0:DATA1 == 0xFFFF` is the invalid-reading sentinel and gives
    /// `None`. Otherwise the upper nibble of `DATA0` is the sign and the
    /// remaining 12 bits the magnitude.
    pub fn decode_temperature(&self) -> (r: Option<i16>)
        ensures
            be_u16(self@[1], self@[2]) == INVALID_DIST_TEMP ==> r == None::<i16>,
            be_u16(self@[1], self@[2]) != INVALID_DIST_TEMP ==> r == Some(
                temperature_tenths(self@[1], self@[2]) as i16,
            ),
            -4095 <= temperature_tenths(self@[1], self@[2]) <= 4095,
            be_u16(self@[1], self@[2]) != INVALID_DIST_TEMP && self@[1] < 16 ==> r == Some(
                (self@[1] * 256 + self@[2]) as i16,
            ),
            be_u16(self@[1], self@[2]) != INVALID_DIST_TEMP && self@[1] >= 16 ==> r == Some(
                (-((self@[1] % 16) * 256 + self@[2])) as i16,
            ),
    {
        let data0 = self.0[1];
        let data1 = self.0[2];
        let raw = (data0 as u16) * 256 + (data1 as u16);
        if raw == INVALID_DIST_TEMP {
            return None;
        }
        assert((data0 & 0xF0u8 != 0) == (data0 >= 16)) by (bit_vector);
        assert(data0 & 0x0Fu8 == data0 % 16) by (bit_vector);
        let is_negative = (data0 & 0xF0) != 0;
        let magnitude = ((data0 & 0x0F) as u16) * 256 + (data1 as u16);
        let value = magnitude as i16;
        if is_negative {
            Some(-value)
        } else {
            Some(value)
        }
    }

    /// The raw 4 bytes of the frame.
    pub fn raw_data(&self) -> (r: &[u8; 4])
        ensures
            r@ == self@,
            checksum_ok(r@),
    {
        proof {
            use_type_invariant(self);
        }
        &self.0
    }
}

// ===== Laws of the frame format =====

/// The checksum is the low byte of the sum of the command and data bytes.
pub proof fn lemma_checksum_is_low_byte_of_sum(cmd: u8, data0: u8, data1: u8)
    ensures
        checksum_of(cmd, data0, data1) as int == (cmd as int + data0 as int + data1 as int) % 256,
        cmd as int + data0 as int + data1 as int == checksum_of(cmd, data0, data1) as int + 256 * (
        (cmd as int + data0 as int + data1 as int) / 256),
{
}

/// A temperature reading is negative exactly when the upper nibble of
/// `DATA0` is non-zero, and its absolute value is the lower 12 bits of
/// `DATA0:DATA1`; with a zero upper nibble it is `DATA0 * 256 + DATA1`.
pub proof fn lemma_temperature_sign_and_magnitude(data0: u8, data1: u8)
    ensures
        data0 < 16 ==> temperature_tenths(data0, data1) == data0 as int * 256 + data1 as int,
        data0 < 16 ==> temperature_tenths(data0, data1) >= 0,
        data0 >= 16 ==> temperature_tenths(data0, data1) == -((data0 as int % 16) * 256 + data1 as int),
        (temperature_tenths(data0, data1) < 0) ==> data0 >= 16,
        (data0 >= 16 && (data0 as int % 16) * 256 + data1 as int > 0) ==> temperature_tenths(data0, data1) < 0,
        temperature_tenths(data0, data1) == (data0 as int % 16) * 256 + data1 as int
            || temperature_tenths(data0, data1) == -((data0 as int % 16) * 256 + data1 as int),
{
}

/// Every frame built from a command and two data bytes passes the checksum
/// check, so parsing a built frame gives it back.
pub proof fn lemma_built_frame_checksum_ok(cmd: u8, data0: u8, data1: u8)
    ensures
        checksum_ok(frame_bytes(cmd, data0, data1)),
{
}

/// Four bytes pass the checksum check exactly when they are the frame built
/// from their first three bytes.
pub proof fn lemma_checksum_ok_iff_built(bytes: Seq<u8>)
    requires
        bytes.len() == 4,
    ensures
        checksum_ok(bytes) <==> bytes == frame_bytes(bytes[0], bytes[1], bytes[2]),
{
    if checksum_ok(bytes) {
        assert(bytes =~= frame_bytes(bytes[0], bytes[1], bytes[2]));
    }
}

/// Changing any single byte of a frame with a valid checksum makes the
/// checksum check fail: one corrupted byte is always detected.
pub proof fn lemma_single_byte_corruption_detected(bytes: Seq<u8>, i: int, v: u8)
    requires
        checksum_ok(bytes),
        0 <= i < 4,
        v != bytes[i],
    ensures
        !checksum_ok(bytes.update(i, v)),
{
}

} // verus!
