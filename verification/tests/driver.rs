use std::collections::HashMap;

use mpu9250_fifo::bus::{BlockRead, FieldRead, FieldWrite, WordWrite};
use mpu9250_fifo::registers::{RA_FIFO_COUNTH, RA_INT_ENABLE, RA_PWR_MGMT_1, RA_USER_CTRL, RA_WHO_AM_I};
use mpu9250_fifo::{AccelerometerData, GyroscopeData, Mpu9250Error, MPU9250};

/// Register files of the devices on a simulated I2C bus.
struct SimBus {
    devices: HashMap<u16, Vec<u8>>,
}

impl SimBus {
    /// An MPU-9250 at `address` with its power-on register values.
    fn with_mpu9250(address: u16) -> SimBus {
        let mut regs = vec![0u8; 256];
        regs[RA_WHO_AM_I as usize] = 0x71;
        regs[RA_PWR_MGMT_1 as usize] = 0x01;
        let mut devices = HashMap::new();
        devices.insert(address, regs);
        SimBus { devices }
    }

    fn regs(&self, address: u16) -> Result<&Vec<u8>, String> {
        self.devices.get(&address).ok_or(format!("no device at {:#x}", address))
    }

    fn read(&self, r: &FieldRead) -> Result<u8, String> {
        let raw = self.regs(r.dev_address)?[r.reg as usize];
        Ok(r.decode(raw))
    }

    fn write(&mut self, w: &FieldWrite) -> Result<(), String> {
        let current = self.regs(w.dev_address)?[w.reg as usize];
        let value = if w.needs_current_value() { w.merge(current) } else { w.data };
        let regs = self.devices.get_mut(&w.dev_address).unwrap();
        regs[w.reg as usize] = value;
        // FIFO_RESET (bit 2 of USER_CTRL) empties the FIFO and clears itself
        if w.reg == RA_USER_CTRL && value & 0x04 != 0 {
            regs[RA_FIFO_COUNTH as usize] = 0;
            regs[RA_FIFO_COUNTH as usize + 1] = 0;
            regs[RA_USER_CTRL as usize] &= !0x04;
        }
        Ok(())
    }

    fn write_all(&mut self, writes: &[FieldWrite]) -> Result<(), String> {
        for w in writes {
            self.write(w)?;
        }
        Ok(())
    }

    fn read_block(&self, b: &BlockRead) -> Result<Vec<u8>, String> {
        let regs = self.regs(b.dev_address)?;
        let start = b.reg as usize;
        Ok(regs[start..start + b.length as usize].to_vec())
    }

    fn set(&mut self, address: u16, reg: u8, bytes: &[u8]) {
        let regs = self.devices.get_mut(&address).unwrap();
        regs[reg as usize..reg as usize + bytes.len()].copy_from_slice(bytes);
    }
}

#[test]
fn lib_test_get_device_id() {
    let mpu9250 = MPU9250::new(0x68);
    let bus = SimBus::with_mpu9250(0x68);
    assert_eq!(bus.read(&mpu9250.get_device_id()).unwrap(), 0x71, "Device Id should be 0x71")
}

#[test]
fn lib_test_initialize() {
    let mpu9250 = MPU9250::new(0x68);
    let mut bus = SimBus::with_mpu9250(0x68);
    assert!(bus.write_all(&mpu9250.initialize()).is_ok(), "Initialize failed")
}

#[test]
fn lib_test_get_motion_6() {
    let mpu9250 = MPU9250::new(0x68);
    let mut bus = SimBus::with_mpu9250(0x68);
    assert!(bus.write_all(&mpu9250.initialize()).is_ok(), "Initialize failed");
    let read = mpu9250.get_motion_6();
    assert!(bus.read_block(&read.block).map(|bytes| read.decode(&bytes)).is_ok(), "Get motion 6 failed")
}

#[test]
fn lib_test_read_accelerometer() {
    let mpu9250 = MPU9250::new(0x68);
    let mut bus = SimBus::with_mpu9250(0x68);
    assert!(bus.write_all(&mpu9250.initialize()).is_ok(), "Initialize failed");
    let read = mpu9250.get_acceleration_x();
    assert!(bus.read_block(&read.block).map(|bytes| read.decode(&bytes)).is_ok(), "Read accelerometer failed")
}

#[test]
fn lib_test_fifo_flush() {
    let mpu9250 = MPU9250::new(0x68);
    let mut bus = SimBus::with_mpu9250(0x68);
    bus.set(0x68, RA_FIFO_COUNTH, &[0x01, 0x20]);
    assert!(bus.write_all(&mpu9250.initialize()).is_ok(), "Initialize failed");
    bus.write(&mpu9250.reset_fifo()).expect("Flush fifo failed");
    let read = mpu9250.get_fifo_count();
    let fifo_count = bus.read_block(&read.block).map(|bytes| read.decode(&bytes)).expect("Get fifo count failed");
    assert_eq!(fifo_count, 0, "FIFO not empty after flush");
}

#[test]
fn temp_sensor_enabled_reads_back_what_was_set() {
    let mpu9250 = MPU9250::new(0x68);
    let mut bus = SimBus::with_mpu9250(0x68);
    for enabled in [true, false, true] {
        bus.write(&mpu9250.set_temp_sensor_enabled(enabled)).unwrap();
        let read = mpu9250.get_temp_sensor_enabled();
        let raw = bus.regs(0x68).unwrap()[read.field.reg as usize];
        assert_eq!(read.decode(raw), enabled as u8);
        assert_eq!(raw & 0x08 != 0, !enabled);
    }
}

#[test]
fn fifo_mode_leaves_frame_sync_and_filter() {
    let mpu9250 = MPU9250::new(0x68);
    let mut bus = SimBus::with_mpu9250(0x68);
    bus.write(&mpu9250.set_external_frame_sync(3)).unwrap();
    bus.write(&mpu9250.set_dlpf_mode(5)).unwrap();
    bus.write(&mpu9250.set_fifo_mode(1)).unwrap();
    assert_eq!(bus.read(&mpu9250.get_fifo_mode()).unwrap(), 1);
    assert_eq!(bus.read(&mpu9250.get_external_frame_sync()).unwrap(), 3);
    assert_eq!(bus.read(&mpu9250.get_dlpf_mode()).unwrap(), 5);
    assert_eq!(bus.regs(0x68).unwrap()[0x1A], 0b0101_1101);
}

#[test]
fn initialize_configures_clock_ranges_and_wakes() {
    let mpu9250 = MPU9250::new(0x68);
    let mut bus = SimBus::with_mpu9250(0x68);
    bus.set(0x68, 0x1B, &[0xFF]);
    bus.set(0x68, 0x1C, &[0xFF]);
    bus.set(0x68, RA_PWR_MGMT_1, &[0x47]);
    bus.write_all(&mpu9250.initialize()).unwrap();
    assert_eq!(bus.read(&mpu9250.get_clock_source()).unwrap(), 1);
    assert_eq!(bus.read(&mpu9250.get_full_scale_gyro_range()).unwrap(), 0);
    assert_eq!(bus.read(&mpu9250.get_full_scale_accel_range()).unwrap(), 0);
    assert_eq!(bus.read(&mpu9250.get_sleep_enabled()).unwrap(), 0);
    // the other bits of the registers are kept
    assert_eq!(bus.regs(0x68).unwrap()[0x1B], 0xE7);
    assert_eq!(bus.regs(0x68).unwrap()[RA_PWR_MGMT_1 as usize], 0x01);
}

#[test]
fn initialize_writes_in_order() {
    let mpu9250 = MPU9250::new(0x69);
    let writes = mpu9250.initialize();
    assert_eq!(
        writes,
        vec![
            FieldWrite { dev_address: 0x69, reg: 0x6B, bit_start: 2, length: 3, data: 1 },
            FieldWrite { dev_address: 0x69, reg: 0x1B, bit_start: 4, length: 2, data: 0 },
            FieldWrite { dev_address: 0x69, reg: 0x1C, bit_start: 4, length: 2, data: 0 },
            FieldWrite { dev_address: 0x69, reg: 0x6B, bit_start: 6, length: 1, data: 0 },
        ]
    );
}

#[test]
fn test_connection_checks_identity() {
    let mpu9250 = MPU9250::new(0x68);
    assert!(mpu9250.test_connection(Ok::<u8, ()>(0x71)));
    assert!(!mpu9250.test_connection(Ok::<u8, ()>(0x68)));
    assert!(!mpu9250.test_connection(Err::<u8, &str>("bus error")));
}

#[test]
fn field_getters_and_setters_address_the_same_bits() {
    let mpu9250 = MPU9250::new(0x68);
    assert_eq!(mpu9250.get_dlpf_mode(), FieldRead { dev_address: 0x68, reg: 0x1A, bit_start: 2, length: 3 });
    assert_eq!(mpu9250.set_dlpf_mode(5), mpu9250.get_dlpf_mode().write(5));
    assert_eq!(mpu9250.get_rate(), FieldRead { dev_address: 0x68, reg: 0x19, bit_start: 7, length: 8 });
    assert_eq!(mpu9250.set_fifo_enabled(true), FieldWrite { dev_address: 0x68, reg: 0x6A, bit_start: 6, length: 1, data: 1 });
    assert_eq!(mpu9250.set_temp_sensor_enabled(true).data, 0);
    assert_eq!(mpu9250.set_temp_sensor_enabled(false).data, 1);
    assert_eq!(mpu9250.get_fifo_mode(), FieldRead { dev_address: 0x68, reg: 0x1A, bit_start: 6, length: 1 });
    assert_eq!(mpu9250.reset_fifo(), FieldWrite { dev_address: 0x68, reg: 0x6A, bit_start: 2, length: 1, data: 1 });
    assert_eq!(mpu9250.set_int_enabled(0x32), FieldWrite { dev_address: 0x68, reg: 0x38, bit_start: 7, length: 8, data: 0x32 });
    assert_eq!(mpu9250.set_x_accel_offset(0x1234), WordWrite { dev_address: 0x68, reg: 0x06, data: 0x1234 });
}

#[test]
fn set_then_get_field_on_register_file() {
    let mpu9250 = MPU9250::new(0x68);
    let mut bus = SimBus::with_mpu9250(0x68);
    bus.set(0x68, 0x1A, &[0b1010_1010]);
    bus.write(&mpu9250.set_dlpf_mode(0b101)).unwrap();
    assert_eq!(bus.read(&mpu9250.get_dlpf_mode()).unwrap(), 0b101);
    assert_eq!(bus.regs(0x68).unwrap()[0x1A], 0b1010_1101);
    // a value wider than the field is cut to the field
    bus.write(&mpu9250.set_external_frame_sync(0xFF)).unwrap();
    assert_eq!(bus.read(&mpu9250.get_external_frame_sync()).unwrap(), 0b111);
    assert_eq!(bus.read(&mpu9250.get_dlpf_mode()).unwrap(), 0b101);
}

#[test]
fn slave_number_is_checked() {
    let mpu9250 = MPU9250::new(0x68);
    assert_eq!(mpu9250.get_slave_address(4), Err(Mpu9250Error::InvalidSlaveNumber));
    assert_eq!(mpu9250.set_slave_register(7, 1), Err(Mpu9250Error::InvalidSlaveNumber));
    assert_eq!(mpu9250.get_slave_enabled(4), Err(Mpu9250Error::InvalidSlaveNumber));
    assert_eq!(
        mpu9250.get_slave_address(2),
        Ok(FieldRead { dev_address: 0x68, reg: 0x2B, bit_start: 7, length: 8 })
    );
    assert_eq!(
        mpu9250.set_slave_data_length(3, 6),
        Ok(FieldWrite { dev_address: 0x68, reg: 0x30, bit_start: 3, length: 4, data: 6 })
    );
    assert_eq!(mpu9250.set_slave_output_byte(4, 1), Err(Mpu9250Error::InvalidParameter));
    assert_eq!(
        mpu9250.set_slave_output_byte(3, 9),
        Ok(FieldWrite { dev_address: 0x68, reg: 0x66, bit_start: 7, length: 8, data: 9 })
    );
    assert_eq!(mpu9250.get_slave_delay_enabled(5), Err(Mpu9250Error::InvalidParameter));
    assert_eq!(
        mpu9250.get_slave_delay_enabled(4),
        Ok(FieldRead { dev_address: 0x68, reg: 0x67, bit_start: 4, length: 1 })
    );
}

#[test]
fn parameter_ranges_are_checked() {
    let mpu9250 = MPU9250::new(0x68);
    assert_eq!(mpu9250.set_accelerometer_power_on_delay(4), Err(Mpu9250Error::InvalidParameter));
    assert!(mpu9250.set_accelerometer_power_on_delay(3).is_ok());
    assert_eq!(mpu9250.set_freefall_detection_counter_decrement(9), Err(Mpu9250Error::InvalidParameter));
    assert_eq!(mpu9250.set_motion_detection_counter_decrement(4), Err(Mpu9250Error::InvalidParameter));
    assert_eq!(mpu9250.get_external_sensor_byte(24), Err(Mpu9250Error::InvalidParameter));
    assert_eq!(
        mpu9250.get_external_sensor_byte(23),
        Ok(FieldRead { dev_address: 0x68, reg: 0x60, bit_start: 7, length: 8 })
    );
    assert!(mpu9250.get_external_sensor_word(22).is_err());
    assert_eq!(mpu9250.get_external_sensor_word(21).unwrap().block, BlockRead { dev_address: 0x68, reg: 0x5E, length: 2 });
    assert!(mpu9250.get_external_sensor_dword(21).is_err());
    assert_eq!(mpu9250.get_external_sensor_dword(20).unwrap().block, BlockRead { dev_address: 0x68, reg: 0x5D, length: 4 });
}

#[test]
fn motion_6_decodes_big_endian_samples() {
    let mpu9250 = MPU9250::new(0x68);
    let read = mpu9250.get_motion_6();
    assert_eq!(read.block, BlockRead { dev_address: 0x68, reg: 0x3B, length: 14 });
    let bytes = [0x01, 0x02, 0xFF, 0xFE, 0x80, 0x00, 0x12, 0x34, 0x7F, 0xFF, 0x00, 0x10, 0xFF, 0xFF];
    let (accel, gyro) = read.decode(&bytes);
    assert_eq!(accel, AccelerometerData { x: 0x0102, y: -2, z: -32768 });
    assert_eq!(gyro, GyroscopeData { x: 32767, y: 16, z: -1 });
}

#[test]
fn motion_9_reads_the_magnetometer_little_endian() {
    let mpu9250 = MPU9250::new(0x68);
    let plan = mpu9250.get_motion_9();
    assert_eq!(plan.bypass, FieldWrite { dev_address: 0x68, reg: 0x37, bit_start: 1, length: 1, data: 1 });
    assert_eq!(plan.start_measurement, FieldWrite { dev_address: 0x0C, reg: 0x0A, bit_start: 7, length: 8, data: 1 });
    assert_eq!(plan.magnetometer.block, BlockRead { dev_address: 0x0C, reg: 0x03, length: 6 });
    assert_eq!(plan.settle_ms, 10);
    let (_, _, mag) = plan.decode(&[0u8; 14], &[0x34, 0x12, 0xFF, 0xFF, 0x00, 0x80]);
    assert_eq!((mag.x, mag.y, mag.z), (0x1234, -1, -32768));
}

#[test]
fn word_reads_decode() {
    let mpu9250 = MPU9250::new(0x68);
    assert_eq!(mpu9250.get_temperature().decode(&[0xF0, 0x00]), -4096);
    assert_eq!(mpu9250.get_fifo_count().block, BlockRead { dev_address: 0x68, reg: 0x72, length: 2 });
    assert_eq!(mpu9250.get_fifo_count().decode(&[0x01, 0x02]), 258);
    assert_eq!(mpu9250.get_external_sensor_dword(0).unwrap().decode(&[0xDE, 0xAD, 0xBE, 0xEF]), 0xDEADBEEF);
    let accel = mpu9250.get_acceleration().decode(&[0, 1, 0, 2, 0xFF, 0xFD]);
    assert_eq!(accel, AccelerometerData { x: 1, y: 2, z: -3 });
    assert_eq!(mpu9250.get_rotation().block, BlockRead { dev_address: 0x68, reg: 0x43, length: 6 });
}

#[test]
fn memory_bank_value() {
    let mpu9250 = MPU9250::new(0x68);
    assert_eq!(mpu9250.set_memory_bank(0x25, false, false).data, 0x05);
    assert_eq!(mpu9250.set_memory_bank(3, true, true).data, 0x63);
    assert_eq!(mpu9250.set_memory_bank(3, false, true).data, 0x23);
}

#[test]
fn dmp_interrupt_write() {
    let mpu9250 = MPU9250::new(0x68);
    assert_eq!(
        mpu9250.dmp_interrupts_write(),
        FieldWrite { dev_address: 0x68, reg: RA_INT_ENABLE, bit_start: 7, length: 8, data: 0x32 }
    );
}
