//! Raw sensor samples and the decoding of the byte blocks the device answers with.
use vstd::prelude::*;
use crate::bus::BlockRead;

verus! {

/// Raw accelerometer sample (ACCEL_*OUT_* registers).
#[derive(Clone, Copy, Debug, PartialEq, Eq)]
pub struct AccelerometerData {
    pub x: i16,
    pub y: i16,
    pub z: i16,
}

/// Raw gyroscope sample (GYRO_*OUT_* registers).
#[derive(Clone, Copy, Debug, PartialEq, Eq)]
pub struct GyroscopeData {
    pub x: i16,
    pub y: i16,
    pub z: i16,
}

/// Raw magnetometer sample (HXL..HZH registers of the magnetometer).
#[derive(Clone, Copy, Debug, PartialEq, Eq)]
pub struct MagnetometerData {
    pub x: i16,
    pub y: i16,
    pub z: i16,
}

/// The two's-complement 16-bit value whose high byte is `hi` and low byte is `lo`.
pub open spec fn spec_i16_from_bytes(hi: u8, lo: u8) -> int {
    if hi < 128 {
        hi * 256 + lo
    } else {
        hi * 256 + lo - 65536
    }
}

/// The unsigned 16-bit value whose high byte is `hi` and low byte is `lo`.
pub open spec fn spec_u16_from_bytes(hi: u8, lo: u8) -> int {
    hi * 256 + lo
}

/// The unsigned word of two bytes has `hi` as its high byte and `lo` as its low byte, whatever
/// the bytes are, and is a 16-bit value.
pub proof fn lemma_u16_from_bytes_parts(hi: u8, lo: u8)
    ensures
        0 <= spec_u16_from_bytes(hi, lo) < 0x10000,
        spec_u16_from_bytes(hi, lo) / 256 == hi,
        spec_u16_from_bytes(hi, lo) % 256 == lo,
{
}

/// The signed word of two bytes has the bits of the unsigned one (it differs by a multiple of
/// 0x10000), and it is negative exactly when the top bit of the high byte is set.
pub proof fn lemma_i16_from_bytes_parts(hi: u8, lo: u8)
    ensures
        -0x8000 <= spec_i16_from_bytes(hi, lo) < 0x8000,
        (spec_i16_from_bytes(hi, lo) + 0x10000) % 0x10000 == hi * 256 + lo,
        spec_i16_from_bytes(hi, lo) < 0 <==> hi >= 128,
{
}

/// Assembles a signed 16-bit value from its high and low bytes.
pub fn i16_from_bytes(hi: u8, lo: u8) -> (value: i16)
    ensures
        value as int == spec_i16_from_bytes(hi, lo),
{
    if hi < 128 {
        (hi as i16) * 256 + (lo as i16)
    } else {
        ((hi as i16) - 256) * 256 + (lo as i16)
    }
}

/// Assembles an unsigned 16-bit value from its high and low bytes.
pub fn u16_from_bytes(hi: u8, lo: u8) -> (value: u16)
    ensures
        value as int == spec_u16_from_bytes(hi, lo),
        value / 256 == hi,
        value % 256 == lo,
{
    (hi as u16) * 256 + (lo as u16)
}

/// Three big-endian signed words: the x, y and z values of a sensor block.
pub open spec fn spec_triple_be(bytes: Seq<u8>, at: int) -> (int, int, int) {
    (
        spec_i16_from_bytes(bytes[at], bytes[at + 1]),
        spec_i16_from_bytes(bytes[at + 2], bytes[at + 3]),
        spec_i16_from_bytes(bytes[at + 4], bytes[at + 5]),
    )
}

fn triple_be(bytes: &[u8], at: usize) -> (r: (i16, i16, i16))
    requires
        at + 6 <= bytes.len(),
    ensures
        (r.0 as int, r.1 as int, r.2 as int) == spec_triple_be(bytes@, at as int),
{
    (
        i16_from_bytes(bytes[at], bytes[at + 1]),
        i16_from_bytes(bytes[at + 2], bytes[at + 3]),
        i16_from_bytes(bytes[at + 4], bytes[at + 5]),
    )
}

/// A read of one big-endian signed 16-bit register pair.
#[derive(Clone, Copy, Debug, PartialEq, Eq)]
pub struct WordRead {
    pub block: BlockRead,
}

/// A read of one big-endian unsigned 16-bit register pair.
#[derive(Clone, Copy, Debug, PartialEq, Eq)]
pub struct UnsignedWordRead {
    pub block: BlockRead,
}

/// A read of four registers holding a big-endian unsigned 32-bit value.
#[derive(Clone, Copy, Debug, PartialEq, Eq)]
pub struct DoubleWordRead {
    pub block: BlockRead,
}

/// A read of the six accelerometer output registers.
#[derive(Clone, Copy, Debug, PartialEq, Eq)]
pub struct AccelerationRead {
    pub block: BlockRead,
}

/// A read of the six gyroscope output registers.
#[derive(Clone, Copy, Debug, PartialEq, Eq)]
pub struct RotationRead {
    pub block: BlockRead,
}

/// A read of the fourteen registers from ACCEL_XOUT_H to GYRO_ZOUT_L (accelerometer,
/// temperature, gyroscope).
#[derive(Clone, Copy, Debug, PartialEq, Eq)]
pub struct Motion6Read {
    pub block: BlockRead,
}

/// A read of the six magnetometer output registers, low byte first.
#[derive(Clone, Copy, Debug, PartialEq, Eq)]
pub struct MagnetometerRead {
    pub block: BlockRead,
}

impl WordRead {
    /// Decodes the two bytes read, high byte first.
    pub fn decode(&self, bytes: &[u8]) -> (value: i16)
        requires
            bytes.len() == 2,
        ensures
            value as int == spec_i16_from_bytes(bytes@[0], bytes@[1]),
    {
        i16_from_bytes(bytes[0], bytes[1])
    }
}

impl UnsignedWordRead {
    /// Decodes the two bytes read, high byte first.
    pub fn decode(&self, bytes: &[u8]) -> (value: u16)
        requires
            bytes.len() == 2,
        ensures
            value as int == spec_u16_from_bytes(bytes@[0], bytes@[1]),
    {
        u16_from_bytes(bytes[0], bytes[1])
    }
}

impl DoubleWordRead {
    /// Decodes the four bytes read, most significant byte first.
    pub fn decode(&self, bytes: &[u8]) -> (value: u32)
        requires
            bytes.len() == 4,
        ensures
            value as int == bytes@[0] * 0x1000000 + bytes@[1] * 0x10000 + bytes@[2] * 0x100
                + bytes@[3],
    {
        (bytes[0] as u32) * 0x1000000 + (bytes[1] as u32) * 0x10000 + (bytes[2] as u32) * 0x100
            + (bytes[3] as u32)
    }
}

impl AccelerationRead {
    /// Decodes the x, y and z accelerations, each high byte first.
    pub fn decode(&self, bytes: &[u8]) -> (data: AccelerometerData)
        requires
            bytes.len() == 6,
        ensures
            (data.x as int, data.y as int, data.z as int) == spec_triple_be(bytes@, 0),
    {
        let (x, y, z) = triple_be(bytes, 0);
        AccelerometerData { x, y, z }
    }
}

impl RotationRead {
    /// Decodes the x, y and z angular rates, each high byte first.
    pub fn decode(&self, bytes: &[u8]) -> (data: GyroscopeData)
        requires
            bytes.len() == 6,
        ensures
            (data.x as int, data.y as int, data.z as int) == spec_triple_be(bytes@, 0),
    {
        let (x, y, z) = triple_be(bytes, 0);
        GyroscopeData { x, y, z }
    }
}

impl Motion6Read {
    /// Decodes the accelerometer sample (bytes 0 to 5) and the gyroscope sample (bytes 8 to
    /// 13); bytes 6 and 7 hold the temperature and are skipped.
    pub fn decode(&self, bytes: &[u8]) -> (data: (AccelerometerData, GyroscopeData))
        requires
            bytes.len() == 14,
        ensures
            (data.0.x as int, data.0.y as int, data.0.z as int) == spec_triple_be(bytes@, 0),
            (data.1.x as int, data.1.y as int, data.1.z as int) == spec_triple_be(bytes@, 8),
    {
        let (ax, ay, az) = triple_be(bytes, 0);
        let (gx, gy, gz) = triple_be(bytes, 8);
        (AccelerometerData { x: ax, y: ay, z: az }, GyroscopeData { x: gx, y: gy, z: gz })
    }
}

impl MagnetometerRead {
    /// Decodes the x, y and z field strengths, each low byte first.
    pub fn decode(&self, bytes: &[u8]) -> (data: MagnetometerData)
        requires
            bytes.len() == 6,
        ensures
            data.x as int == spec_i16_from_bytes(bytes@[1], bytes@[0]),
            data.y as int == spec_i16_from_bytes(bytes@[3], bytes@[2]),
            data.z as int == spec_i16_from_bytes(bytes@[5], bytes@[4]),
    {
        MagnetometerData {
            x: i16_from_bytes(bytes[1], bytes[0]),
            y: i16_from_bytes(bytes[3], bytes[2]),
            z: i16_from_bytes(bytes[5], bytes[4]),
        }
    }
}

} // verus!
