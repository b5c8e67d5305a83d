//! Register-level driver logic for the InvenSense MPU-9250 inertial measurement unit.
pub mod bits;
pub mod bus;
pub mod sensor;
pub mod registers;
pub mod mpu9250;
pub mod memory;
pub mod calibrate;
pub mod messages;
pub mod camera;

pub use crate::bits::{read_bit, read_bits, write_bit, write_bits};
pub use crate::bus::{BlockRead, FieldRead, FieldWrite, InvertedBitRead, WordWrite};
pub use crate::mpu9250::{read_x_accelerometer, Motion9Read, Mpu9250Error, MPU9250};
pub use crate::sensor::{AccelerometerData, GyroscopeData, MagnetometerData};
