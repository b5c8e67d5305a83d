//! The MPU-9250 driver: every operation of the device expressed as the bus requests it needs.
use vstd::prelude::*;
use crate::bus::{
    lemma_field_read_after_write, lemma_field_write_keeps_other_fields, spec_apply_write,
    spec_apply_writes, spec_read_field, BlockRead, FieldRead, FieldWrite, InvertedBitRead, WordWrite,
};
use crate::bits::low_bits;
use crate::registers::{
    DEFAULT_ADDRESS, RA_MAG_ADDRESS, RA_MAG_CTRL, RA_MAG_CTRL_SNGL_MSR, RA_MAG_XOUT_L,
    RA_XG_OFFS_TC, RA_YG_OFFS_TC, RA_ZG_OFFS_TC, RA_X_FINE_GAIN, RA_Y_FINE_GAIN, RA_Z_FINE_GAIN,
    RA_XA_OFFS_H, RA_YA_OFFS_H, RA_ZA_OFFS_H, RA_XG_OFFS_USRH, RA_YG_OFFS_USRH, RA_ZG_OFFS_USRH,
    RA_SMPLRT_DIV, RA_CONFIG, RA_GYRO_CONFIG, RA_ACCEL_CONFIG, RA_FF_THR, RA_FF_DUR, RA_MOT_THR,
    RA_MOT_DUR, RA_ZRMOT_THR, RA_ZRMOT_DUR, RA_FIFO_EN, RA_I2C_MST_CTRL, RA_I2C_SLV0_ADDR,
    RA_I2C_SLV0_REG, RA_I2C_SLV0_CTRL, RA_I2C_SLV4_ADDR, RA_I2C_SLV4_REG, RA_I2C_SLV4_DO,
    RA_I2C_SLV4_CTRL, RA_I2C_SLV4_DI, RA_I2C_MST_STATUS, RA_INT_PIN_CFG, RA_INT_ENABLE,
    RA_DMP_INT_STATUS, RA_INT_STATUS, RA_ACCEL_XOUT_H, RA_ACCEL_XOUT_L, RA_ACCEL_YOUT_H,
    RA_ACCEL_ZOUT_H, RA_TEMP_OUT_H, RA_GYRO_XOUT_H, RA_GYRO_YOUT_H, RA_GYRO_ZOUT_H,
    RA_EXT_SENS_DATA_00, RA_MOT_DETECT_STATUS, RA_I2C_SLV0_DO, RA_I2C_MST_DELAY_CTRL,
    RA_SIGNAL_PATH_RESET, RA_MOT_DETECT_CTRL, RA_USER_CTRL, RA_PWR_MGMT_1, RA_PWR_MGMT_2,
    RA_BANK_SEL, RA_MEM_START_ADDR, RA_MEM_R_W, RA_DMP_CFG_1, RA_DMP_CFG_2, RA_FIFO_COUNTH,
    RA_FIFO_R_W, RA_WHO_AM_I, TC_PWR_MODE_BIT, TC_OFFSET_BIT, TC_OFFSET_LENGTH,
    TC_OTP_BNK_VLD_BIT, CFG_EXT_SYNC_SET_BIT, CFG_EXT_SYNC_SET_LENGTH, CFG_FIFO_MODE_BIT,
    CFG_FIFO_MODE_LENGTH, CFG_DLPF_CFG_BIT, CFG_DLPF_CFG_LENGTH, GCONFIG_FS_SEL_BIT,
    GCONFIG_FS_SEL_LENGTH, GYRO_FS_250, ACONFIG_XA_ST_BIT, ACONFIG_YA_ST_BIT, ACONFIG_ZA_ST_BIT,
    ACONFIG_AFS_SEL_BIT, ACONFIG_AFS_SEL_LENGTH, ACONFIG_ACCEL_HPF_BIT,
    ACONFIG_ACCEL_HPF_LENGTH, ACCEL_FS_2, TEMP_FIFO_EN_BIT, XG_FIFO_EN_BIT, YG_FIFO_EN_BIT,
    ZG_FIFO_EN_BIT, ACCEL_FIFO_EN_BIT, SLV2_FIFO_EN_BIT, SLV1_FIFO_EN_BIT, SLV0_FIFO_EN_BIT,
    MULT_MST_EN_BIT, WAIT_FOR_ES_BIT, SLV_3_FIFO_EN_BIT, I2C_MST_P_NSR_BIT, I2C_MST_CLK_BIT,
    I2C_MST_CLK_LENGTH, I2C_SLV_EN_BIT, I2C_SLV_BYTE_SW_BIT, I2C_SLV_REG_DIS_BIT,
    I2C_SLV_GRP_BIT, I2C_SLV_LEN_BIT, I2C_SLV_LEN_LENGTH, I2C_SLV4_EN_BIT, I2C_SLV4_INT_EN_BIT,
    I2C_SLV4_REG_DIS_BIT, I2C_SLV4_MST_DLY_BIT, I2C_SLV4_MST_DLY_LENGTH, MST_PASS_THROUGH_BIT,
    MST_I2C_SLV4_DONE_BIT, MST_I2C_LOST_ARB_BIT, MST_I2C_SLV4_NACK_BIT, MST_I2C_SLV3_NACK_BIT,
    MST_I2C_SLV2_NACK_BIT, MST_I2C_SLV1_NACK_BIT, MST_I2C_SLV0_NACK_BIT, INTCFG_INT_LEVEL_BIT,
    INTCFG_INT_OPEN_BIT, INTCFG_LATCH_INT_EN_BIT, INTCFG_INT_RD_CLEAR_BIT,
    INTCFG_FSYNC_INT_LEVEL_BIT, INTCFG_FSYNC_INT_EN_BIT, INTCFG_I2C_BYPASS_EN_BIT,
    INTCFG_CLKOUT_EN_BIT, INTERRUPT_FF_BIT, INTERRUPT_MOT_BIT, INTERRUPT_ZMOT_BIT,
    INTERRUPT_FIFO_OFLOW_BIT, INTERRUPT_I2C_MST_INT_BIT, INTERRUPT_PLL_RDY_INT_BIT,
    INTERRUPT_DMP_INT_BIT, INTERRUPT_DATA_RDY_BIT, DMPINT_5_BIT, DMPINT_4_BIT, DMPINT_3_BIT,
    DMPINT_2_BIT, DMPINT_1_BIT, DMPINT_0_BIT, MOTION_MOT_XNEG_BIT, MOTION_MOT_XPOS_BIT,
    MOTION_MOT_YNEG_BIT, MOTION_MOT_YPOS_BIT, MOTION_MOT_ZNEG_BIT, MOTION_MOT_ZPOS_BIT,
    MOTION_MOT_ZRMOT_BIT, DELAYCTRL_DELAY_ES_SHADOW_BIT, PATHRESET_GYRO_RESET_BIT,
    PATHRESET_ACCEL_RESET_BIT, PATHRESET_TEMP_RESET_BIT, DETECT_ACCEL_ON_DELAY_BIT,
    DETECT_ACCEL_ON_DELAY_LENGTH, DETECT_FF_COUNT_BIT, DETECT_FF_COUNT_LENGTH,
    DETECT_MOT_COUNT_BIT, DETECT_MOT_COUNT_LENGTH, USERCTRL_DMP_EN_BIT, USERCTRL_FIFO_EN_BIT,
    USERCTRL_I2C_MST_EN_BIT, USERCTRL_I2C_IF_DIS_BIT, USERCTRL_DMP_RESET_BIT,
    USERCTRL_FIFO_RESET_BIT, USERCTRL_I2C_MST_RESET_BIT, USERCTRL_SIG_COND_RESET_BIT,
    PWR1_DEVICE_RESET_BIT, PWR1_SLEEP_BIT, PWR1_CYCLE_BIT, PWR1_TEMP_DIS_BIT, PWR1_CLKSEL_BIT,
    PWR1_CLKSEL_LENGTH, CLOCK_PLL_XGYRO, PWR2_LP_WAKE_CTRL_BIT, PWR2_LP_WAKE_CTRL_LENGTH,
    PWR2_STBY_XA_BIT, PWR2_STBY_YA_BIT, PWR2_STBY_ZA_BIT, PWR2_STBY_XG_BIT, PWR2_STBY_YG_BIT,
    PWR2_STBY_ZG_BIT,
};
use crate::sensor::{
    spec_i16_from_bytes, spec_triple_be, AccelerometerData, GyroscopeData, MagnetometerData,
    AccelerationRead, DoubleWordRead, MagnetometerRead, Motion6Read, RotationRead,
    UnsignedWordRead, WordRead,
};

verus! {

/// Errors the driver reports instead of talking to the device.
#[derive(Clone, Copy, Debug, PartialEq, Eq)]
pub enum Mpu9250Error {
    /// The slave number is not one of 0 to 3.
    InvalidSlaveNumber,
    /// A position, slave number or setting is out of the range of the register.
    InvalidParameter,
    /// A DMP configuration block holds a special command other than 0x01.
    UnknownSpecialCommand,
    /// The DMP memory read back after a write differs from what was written.
    WriteVerifyFailed,
    /// A DMP configuration block runs past the end of the data.
    ConfigurationTruncated,
}

/// 1 for `true`, 0 for `false`: the value a flag is written as.
pub open spec fn spec_flag(b: bool) -> u8 {
    if b {
        1
    } else {
        0
    }
}

fn flag(b: bool) -> (r: u8)
    ensures
        r == spec_flag(b),
{
    if b {
        1
    } else {
        0
    }
}

/// An MPU-9250 on the I2C bus at `dev_address`.
#[derive(Clone, Copy, Debug, PartialEq, Eq)]
pub struct MPU9250 {
    pub dev_address: u16,
}

/// The requests of a 9-axis reading: the 6-axis block of the MPU-9250, then the magnetometer,
/// which is reached by enabling the I2C bypass and starting a single measurement, waiting
/// `settle_ms` milliseconds after each of these two writes.
#[derive(Clone, Copy, Debug, PartialEq, Eq)]
pub struct Motion9Read {
    pub motion_6: Motion6Read,
    pub bypass: FieldWrite,
    pub start_measurement: FieldWrite,
    pub magnetometer: MagnetometerRead,
    pub settle_ms: u64,
}

impl Motion9Read {
    /// Decodes the 6-axis block and the magnetometer block into the three samples.
    pub fn decode(&self, motion_6: &[u8], magnetometer: &[u8]) -> (data: (
        AccelerometerData,
        GyroscopeData,
        MagnetometerData,
    ))
        requires
            motion_6.len() == 14,
            magnetometer.len() == 6,
        ensures
            (data.0.x as int, data.0.y as int, data.0.z as int) == spec_triple_be(motion_6@, 0),
            (data.1.x as int, data.1.y as int, data.1.z as int) == spec_triple_be(motion_6@, 8),
            data.2.x as int == spec_i16_from_bytes(magnetometer@[1], magnetometer@[0]),
            data.2.y as int == spec_i16_from_bytes(magnetometer@[3], magnetometer@[2]),
            data.2.z as int == spec_i16_from_bytes(magnetometer@[5], magnetometer@[4]),
    {
        let (accelerometer, gyroscope) = self.motion_6.decode(motion_6);
        let magnetometer = self.magnetometer.decode(magnetometer);
        (accelerometer, gyroscope, magnetometer)
    }
}

impl MPU9250 {
    /// A field of a register of this device.
    pub open spec fn spec_field(self, reg: u8, bit_start: u8, length: u8) -> FieldRead {
        FieldRead { dev_address: self.dev_address, reg, bit_start, length }
    }

    /// A whole register of this device.
    pub open spec fn spec_register(self, reg: u8) -> FieldRead {
        self.spec_field(reg, 7, 8)
    }

    /// A block of `length` registers of this device starting at `reg`.
    pub open spec fn spec_block(self, reg: u8, length: u8) -> BlockRead {
        BlockRead { dev_address: self.dev_address, reg, length }
    }

    fn field(&self, reg: u8, bit_start: u8, length: u8) -> (r: FieldRead)
        ensures
            r == self.spec_field(reg, bit_start, length),
    {
        FieldRead { dev_address: self.dev_address, reg, bit_start, length }
    }

    fn register(&self, reg: u8) -> (r: FieldRead)
        ensures
            r == self.spec_register(reg),
    {
        self.field(reg, 7, 8)
    }

    /// The write of a whole register of this device.
    pub(crate) fn register_write(&self, reg: u8, data: u8) -> (w: FieldWrite)
        ensures
            w == self.spec_register(reg).with_data(data),
    {
        self.register(reg).write(data)
    }

    fn block(&self, reg: u8, length: u8) -> (r: BlockRead)
        ensures
            r == self.spec_block(reg, length),
    {
        BlockRead { dev_address: self.dev_address, reg, length }
    }

    /// The driver for the device at `dev_address`.
    pub open spec fn new_spec(dev_address: u16) -> Self {
        MPU9250 { dev_address }
    }

    /// A driver for the device at `dev_address`.
    pub fn new(dev_address: u16) -> (r: Self)
        ensures
            r.dev_address == dev_address,
    {
        MPU9250 { dev_address }
    }

    /// The writes of `initialize`, in order.
    pub open spec fn spec_initialize(self) -> Seq<FieldWrite> {
        seq![
            self.spec_field(RA_PWR_MGMT_1, PWR1_CLKSEL_BIT, PWR1_CLKSEL_LENGTH).with_data(CLOCK_PLL_XGYRO),
            self.spec_field(RA_GYRO_CONFIG, GCONFIG_FS_SEL_BIT, GCONFIG_FS_SEL_LENGTH).with_data(GYRO_FS_250),
            self.spec_field(RA_ACCEL_CONFIG, ACONFIG_AFS_SEL_BIT, ACONFIG_AFS_SEL_LENGTH).with_data(ACCEL_FS_2),
            self.spec_field(RA_PWR_MGMT_1, PWR1_SLEEP_BIT, 1).with_data(0),
        ]
    }

    /// Power on and prepare for general usage: use the X gyroscope as clock reference, set
    /// the gyroscope to +/- 250 degrees/s and the accelerometer to +/- 2g (their most sensitive
    /// ranges), and take the device out of sleep mode. The writes are to be done in order.
    pub fn initialize(&self) -> (writes: Vec<FieldWrite>)
        ensures
            writes@ == self.spec_initialize(),
    {
        let mut writes: Vec<FieldWrite> = Vec::new();
        writes.push(self.set_clock_source(CLOCK_PLL_XGYRO));
        writes.push(self.set_full_scale_gyro_range(GYRO_FS_250));
        writes.push(self.set_full_scale_accel_range(ACCEL_FS_2));
        writes.push(self.set_sleep_enabled(false));
        writes
    }

    /// Whether the device answered the device-id read with the MPU-9250's identity, 0x71.
    /// A failed read means no connection.
    pub fn test_connection<E>(&self, device_id: Result<u8, E>) -> (connected: bool)
        ensures
            connected == (device_id matches Ok(id) && id == 0x71),
    {
        match device_id {
            Ok(id) => id == 0x71,
            Err(_) => false,
        }
    }

    /// Get the I2C address of the specified slave (0-3).
    pub fn get_slave_address(&self, num: u8) -> (r: Result<FieldRead, Mpu9250Error>)
        ensures
            r == if num > 3 {
                Err(Mpu9250Error::InvalidSlaveNumber)
            } else {
                Ok(self.spec_register((RA_I2C_SLV0_ADDR + num * 3) as u8))
            },
    {
        if num > 3 {
            return Err(Mpu9250Error::InvalidSlaveNumber);
        }
        Ok(self.register(RA_I2C_SLV0_ADDR + num * 3))
    }

    /// Set the I2C address of the specified slave (0-3).
    pub fn set_slave_address(&self, num: u8, address: u8) -> (r: Result<FieldWrite, Mpu9250Error>)
        ensures
            r == if num > 3 {
                Err(Mpu9250Error::InvalidSlaveNumber)
            } else {
                Ok(self.spec_register((RA_I2C_SLV0_ADDR + num * 3) as u8).with_data(address))
            },
    {
        if num > 3 {
            return Err(Mpu9250Error::InvalidSlaveNumber);
        }
        Ok(self.register(RA_I2C_SLV0_ADDR + num * 3).write(address))
    }

    /// Get the active internal register for the specified slave (0-3).
    pub fn get_slave_register(&self, num: u8) -> (r: Result<FieldRead, Mpu9250Error>)
        ensures
            r == if num > 3 {
                Err(Mpu9250Error::InvalidSlaveNumber)
            } else {
                Ok(self.spec_register((RA_I2C_SLV0_REG + num * 3) as u8))
            },
    {
        if num > 3 {
            return Err(Mpu9250Error::InvalidSlaveNumber);
        }
        Ok(self.register(RA_I2C_SLV0_REG + num * 3))
    }

    /// Set the active internal register for the specified slave (0-3).
    pub fn set_slave_register(&self, num: u8, register: u8) -> (r: Result<FieldWrite, Mpu9250Error>)
        ensures
            r == if num > 3 {
                Err(Mpu9250Error::InvalidSlaveNumber)
            } else {
                Ok(self.spec_register((RA_I2C_SLV0_REG + num * 3) as u8).with_data(register))
            },
    {
        if num > 3 {
            return Err(Mpu9250Error::InvalidSlaveNumber);
        }
        Ok(self.register(RA_I2C_SLV0_REG + num * 3).write(register))
    }

    /// A field of the control register of the specified slave (0-3).
    pub open spec fn spec_slave_control(self, num: u8, bit_start: u8, length: u8) -> Result<FieldRead, Mpu9250Error> {
        if num > 3 {
            Err(Mpu9250Error::InvalidSlaveNumber)
        } else {
            Ok(self.spec_field((RA_I2C_SLV0_CTRL + num * 3) as u8, bit_start, length))
        }
    }

    fn slave_control(&self, num: u8, bit_start: u8, length: u8) -> (r: Result<FieldRead, Mpu9250Error>)
        ensures
            r == self.spec_slave_control(num, bit_start, length),
    {
        if num > 3 {
            return Err(Mpu9250Error::InvalidSlaveNumber);
        }
        Ok(self.field(RA_I2C_SLV0_CTRL + num * 3, bit_start, length))
    }

    fn slave_control_write(&self, num: u8, bit_start: u8, length: u8, data: u8) -> (r: Result<FieldWrite, Mpu9250Error>)
        ensures
            r == match self.spec_slave_control(num, bit_start, length) {
                Ok(f) => Ok(f.with_data(data)),
                Err(e) => Err(e),
            },
    {
        match self.slave_control(num, bit_start, length) {
            Ok(f) => Ok(f.write(data)),
            Err(e) => Err(e),
        }
    }

    /// Get whether the specified slave (0-3) is enabled.
    pub fn get_slave_enabled(&self, num: u8) -> (r: Result<FieldRead, Mpu9250Error>)
        ensures
            r == self.spec_slave_control(num, I2C_SLV_EN_BIT, 1),
    {
        self.slave_control(num, I2C_SLV_EN_BIT, 1)
    }

    /// Set whether the specified slave (0-3) is enabled.
    pub fn set_slave_enabled(&self, num: u8, enabled: bool) -> (r: Result<FieldWrite, Mpu9250Error>)
        ensures
            r == match self.spec_slave_control(num, I2C_SLV_EN_BIT, 1) {
                Ok(f) => Ok(f.with_data(spec_flag(enabled))),
                Err(e) => Err(e),
            },
    {
        self.slave_control_write(num, I2C_SLV_EN_BIT, 1, flag(enabled))
    }

    /// Get word pair byte-swapping enabled for the specified slave (0-3).
    pub fn get_slave_word_byte_swap(&self, num: u8) -> (r: Result<FieldRead, Mpu9250Error>)
        ensures
            r == self.spec_slave_control(num, I2C_SLV_BYTE_SW_BIT, 1),
    {
        self.slave_control(num, I2C_SLV_BYTE_SW_BIT, 1)
    }

    /// Set word pair byte-swapping enabled for the specified slave (0-3).
    pub fn set_slave_word_byte_swap(&self, num: u8, enabled: bool) -> (r: Result<FieldWrite, Mpu9250Error>)
        ensures
            r == match self.spec_slave_control(num, I2C_SLV_BYTE_SW_BIT, 1) {
                Ok(f) => Ok(f.with_data(spec_flag(enabled))),
                Err(e) => Err(e),
            },
    {
        self.slave_control_write(num, I2C_SLV_BYTE_SW_BIT, 1, flag(enabled))
    }

    /// Get write mode for the specified slave (0-3).
    pub fn get_slave_write_mode(&self, num: u8) -> (r: Result<FieldRead, Mpu9250Error>)
        ensures
            r == self.spec_slave_control(num, I2C_SLV_REG_DIS_BIT, 1),
    {
        self.slave_control(num, I2C_SLV_REG_DIS_BIT, 1)
    }

    /// Set write mode for the specified slave (0-3).
    pub fn set_slave_write_mode(&self, num: u8, mode: bool) -> (r: Result<FieldWrite, Mpu9250Error>)
        ensures
            r == match self.spec_slave_control(num, I2C_SLV_REG_DIS_BIT, 1) {
                Ok(f) => Ok(f.with_data(spec_flag(mode))),
                Err(e) => Err(e),
            },
    {
        self.slave_control_write(num, I2C_SLV_REG_DIS_BIT, 1, flag(mode))
    }

    /// Get word pair grouping order offset for the specified slave (0-3).
    pub fn get_slave_word_group_offset(&self, num: u8) -> (r: Result<FieldRead, Mpu9250Error>)
        ensures
            r == self.spec_slave_control(num, I2C_SLV_GRP_BIT, 1),
    {
        self.slave_control(num, I2C_SLV_GRP_BIT, 1)
    }

    /// Set word pair grouping order offset for the specified slave (0-3).
    pub fn set_slave_word_group_offset(&self, num: u8, enabled: bool) -> (r: Result<FieldWrite, Mpu9250Error>)
        ensures
            r == match self.spec_slave_control(num, I2C_SLV_GRP_BIT, 1) {
                Ok(f) => Ok(f.with_data(spec_flag(enabled))),
                Err(e) => Err(e),
            },
    {
        self.slave_control_write(num, I2C_SLV_GRP_BIT, 1, flag(enabled))
    }

    /// Get number of bytes to read for the specified slave (0-3).
    pub fn get_slave_data_length(&self, num: u8) -> (r: Result<FieldRead, Mpu9250Error>)
        ensures
            r == self.spec_slave_control(num, I2C_SLV_LEN_BIT, I2C_SLV_LEN_LENGTH),
    {
        self.slave_control(num, I2C_SLV_LEN_BIT, I2C_SLV_LEN_LENGTH)
    }

    /// Set number of bytes to read for the specified slave (0-3).
    pub fn set_slave_data_length(&self, num: u8, length: u8) -> (r: Result<FieldWrite, Mpu9250Error>)
        ensures
            r == match self.spec_slave_control(num, I2C_SLV_LEN_BIT, I2C_SLV_LEN_LENGTH) {
                Ok(f) => Ok(f.with_data(length)),
                Err(e) => Err(e),
            },
    {
        self.slave_control_write(num, I2C_SLV_LEN_BIT, I2C_SLV_LEN_LENGTH, length)
    }

    /// Get raw 6-axis motion sensor readings (accel/gyro): the fourteen registers from
    /// ACCEL_XOUT_H.
    pub fn get_motion_6(&self) -> (r: Motion6Read)
        ensures
            r.block == self.spec_block(RA_ACCEL_XOUT_H, 14),
    {
        Motion6Read { block: self.block(RA_ACCEL_XOUT_H, 14) }
    }

    /// Get raw 9-axis motion sensor readings (accel/gyro/compass). The I2C bypass is enabled
    /// and a single magnetometer measurement started, 10 ms apart, before the six magnetometer
    /// output registers are read from the magnetometer's own address.
    pub fn get_motion_9(&self) -> (r: Motion9Read)
        ensures
            r.motion_6.block == self.spec_block(RA_ACCEL_XOUT_H, 14),
            r.bypass == self.spec_field(RA_INT_PIN_CFG, INTCFG_I2C_BYPASS_EN_BIT, 1).with_data(1),
            r.start_measurement == (FieldRead {
                dev_address: RA_MAG_ADDRESS,
                reg: RA_MAG_CTRL,
                bit_start: 7,
                length: 8,
            }).with_data(RA_MAG_CTRL_SNGL_MSR),
            r.magnetometer.block == (BlockRead { dev_address: RA_MAG_ADDRESS, reg: RA_MAG_XOUT_L, length: 6 }),
            r.settle_ms == 10,
    {
        Motion9Read {
            motion_6: self.get_motion_6(),
            bypass: self.set_i2c_bypass_enabled(true),
            start_measurement: self.set_magnetometer_enabled(true),
            magnetometer: MagnetometerRead {
                block: BlockRead { dev_address: RA_MAG_ADDRESS, reg: RA_MAG_XOUT_L, length: 6 },
            },
            settle_ms: 10,
        }
    }

    /// Start a single measurement of the magnetometer (its control register gets the
    /// single-measurement mode; `enabled` does not change the write).
    pub fn set_magnetometer_enabled(&self, enabled: bool) -> (w: FieldWrite)
        ensures
            w == (FieldRead { dev_address: RA_MAG_ADDRESS, reg: RA_MAG_CTRL, bit_start: 7, length: 8 }).with_data(
                RA_MAG_CTRL_SNGL_MSR,
            ),
    {
        FieldRead { dev_address: RA_MAG_ADDRESS, reg: RA_MAG_CTRL, bit_start: 7, length: 8 }.write(
            RA_MAG_CTRL_SNGL_MSR,
        )
    }

    /// Get 3-axis accelerometer readings.
    pub fn get_acceleration(&self) -> (r: AccelerationRead)
        ensures
            r.block == self.spec_block(RA_ACCEL_XOUT_H, 6),
    {
        AccelerationRead { block: self.block(RA_ACCEL_XOUT_H, 6) }
    }

    /// Get X-axis accelerometer reading.
    pub fn get_acceleration_x(&self) -> (r: WordRead)
        ensures
            r.block == self.spec_block(RA_ACCEL_XOUT_H, 2),
    {
        WordRead { block: self.block(RA_ACCEL_XOUT_H, 2) }
    }

    /// Get Y-axis accelerometer reading.
    pub fn get_acceleration_y(&self) -> (r: WordRead)
        ensures
            r.block == self.spec_block(RA_ACCEL_YOUT_H, 2),
    {
        WordRead { block: self.block(RA_ACCEL_YOUT_H, 2) }
    }

    /// Get Z-axis accelerometer reading.
    pub fn get_acceleration_z(&self) -> (r: WordRead)
        ensures
            r.block == self.spec_block(RA_ACCEL_ZOUT_H, 2),
    {
        WordRead { block: self.block(RA_ACCEL_ZOUT_H, 2) }
    }

    /// Get current internal temperature.
    pub fn get_temperature(&self) -> (r: WordRead)
        ensures
            r.block == self.spec_block(RA_TEMP_OUT_H, 2),
    {
        WordRead { block: self.block(RA_TEMP_OUT_H, 2) }
    }

    /// Get 3-axis gyroscope readings.
    pub fn get_rotation(&self) -> (r: RotationRead)
        ensures
            r.block == self.spec_block(RA_GYRO_XOUT_H, 6),
    {
        RotationRead { block: self.block(RA_GYRO_XOUT_H, 6) }
    }

    /// Get X-axis gyroscope reading.
    pub fn get_rotation_x(&self) -> (r: WordRead)
        ensures
            r.block == self.spec_block(RA_GYRO_XOUT_H, 2),
    {
        WordRead { block: self.block(RA_GYRO_XOUT_H, 2) }
    }

    /// Get Y-axis gyroscope reading.
    pub fn get_rotation_y(&self) -> (r: WordRead)
        ensures
            r.block == self.spec_block(RA_GYRO_YOUT_H, 2),
    {
        WordRead { block: self.block(RA_GYRO_YOUT_H, 2) }
    }

    /// Get Z-axis gyroscope reading.
    pub fn get_rotation_z(&self) -> (r: WordRead)
        ensures
            r.block == self.spec_block(RA_GYRO_ZOUT_H, 2),
    {
        WordRead { block: self.block(RA_GYRO_ZOUT_H, 2) }
    }

    /// Read single byte from external sensor data register (position 0 to 23).
    pub fn get_external_sensor_byte(&self, position: u8) -> (r: Result<FieldRead, Mpu9250Error>)
        ensures
            r == if position > 23 {
                Err(Mpu9250Error::InvalidParameter)
            } else {
                Ok(self.spec_register((RA_EXT_SENS_DATA_00 + position) as u8))
            },
    {
        if position > 23 {
            return Err(Mpu9250Error::InvalidParameter);
        }
        Ok(self.register(RA_EXT_SENS_DATA_00 + position))
    }

    /// Read a big-endian word from the external sensor data registers (position 0 to 21).
    pub fn get_external_sensor_word(&self, position: u8) -> (r: Result<UnsignedWordRead, Mpu9250Error>)
        ensures
            position > 21 <==> r is Err,
            r is Err ==> r == Err::<UnsignedWordRead, _>(Mpu9250Error::InvalidParameter),
            r matches Ok(read) ==> read.block == self.spec_block((RA_EXT_SENS_DATA_00 + position) as u8, 2),
    {
        if position > 21 {
            return Err(Mpu9250Error::InvalidParameter);
        }
        Ok(UnsignedWordRead { block: self.block(RA_EXT_SENS_DATA_00 + position, 2) })
    }

    /// Read a big-endian double word from the external sensor data registers (position 0 to
    /// 20).
    pub fn get_external_sensor_dword(&self, position: u8) -> (r: Result<DoubleWordRead, Mpu9250Error>)
        ensures
            position > 20 <==> r is Err,
            r is Err ==> r == Err::<DoubleWordRead, _>(Mpu9250Error::InvalidParameter),
            r matches Ok(read) ==> read.block == self.spec_block((RA_EXT_SENS_DATA_00 + position) as u8, 4),
    {
        if position > 20 {
            return Err(Mpu9250Error::InvalidParameter);
        }
        Ok(DoubleWordRead { block: self.block(RA_EXT_SENS_DATA_00 + position, 4) })
    }

    /// Write byte to Data Output container for specified slave (0-3).
    pub fn set_slave_output_byte(&self, num: u8, data: u8) -> (r: Result<FieldWrite, Mpu9250Error>)
        ensures
            r == if num > 3 {
                Err(Mpu9250Error::InvalidParameter)
            } else {
                Ok(self.spec_register((RA_I2C_SLV0_DO + num) as u8).with_data(data))
            },
    {
        if num > 3 {
            return Err(Mpu9250Error::InvalidParameter);
        }
        Ok(self.register(RA_I2C_SLV0_DO + num).write(data))
    }

    /// Get slave delay enabled status (slave 0 to 4): bit `num` of I2C_MST_DELAY_CTRL.
    pub fn get_slave_delay_enabled(&self, num: u8) -> (r: Result<FieldRead, Mpu9250Error>)
        ensures
            r == if num > 4 {
                Err(Mpu9250Error::InvalidParameter)
            } else {
                Ok(self.spec_field(RA_I2C_MST_DELAY_CTRL, num, 1))
            },
    {
        if num > 4 {
            return Err(Mpu9250Error::InvalidParameter);
        }
        Ok(self.field(RA_I2C_MST_DELAY_CTRL, num, 1))
    }

    /// Set slave delay enabled status (slave 0 to 4): bit `num` of I2C_MST_DELAY_CTRL.
    pub fn set_slave_delay_enabled(&self, num: u8, enabled: bool) -> (r: Result<FieldWrite, Mpu9250Error>)
        ensures
            r == if num > 4 {
                Err(Mpu9250Error::InvalidParameter)
            } else {
                Ok(self.spec_field(RA_I2C_MST_DELAY_CTRL, num, 1).with_data(spec_flag(enabled)))
            },
    {
        if num > 4 {
            return Err(Mpu9250Error::InvalidParameter);
        }
        Ok(self.field(RA_I2C_MST_DELAY_CTRL, num, 1).write(flag(enabled)))
    }

    /// Set accelerometer power-on delay (0 to 3).
    pub fn set_accelerometer_power_on_delay(&self, delay: u8) -> (r: Result<FieldWrite, Mpu9250Error>)
        ensures
            r == if delay > 3 {
                Err(Mpu9250Error::InvalidParameter)
            } else {
                Ok(self.spec_field(RA_MOT_DETECT_CTRL, DETECT_ACCEL_ON_DELAY_BIT, DETECT_ACCEL_ON_DELAY_LENGTH).with_data(delay))
            },
    {
        if delay > 3 {
            return Err(Mpu9250Error::InvalidParameter);
        }
        Ok(self.field(RA_MOT_DETECT_CTRL, DETECT_ACCEL_ON_DELAY_BIT, DETECT_ACCEL_ON_DELAY_LENGTH).write(delay))
    }

    /// Set Free Fall detection counter decrement configuration (0 to 3).
    pub fn set_freefall_detection_counter_decrement(&self, decrement: u8) -> (r: Result<FieldWrite, Mpu9250Error>)
        ensures
            r == if decrement > 3 {
                Err(Mpu9250Error::InvalidParameter)
            } else {
                Ok(self.spec_field(RA_MOT_DETECT_CTRL, DETECT_FF_COUNT_BIT, DETECT_FF_COUNT_LENGTH).with_data(decrement))
            },
    {
        if decrement > 3 {
            return Err(Mpu9250Error::InvalidParameter);
        }
        Ok(self.field(RA_MOT_DETECT_CTRL, DETECT_FF_COUNT_BIT, DETECT_FF_COUNT_LENGTH).write(decrement))
    }

    /// Set Motion detection counter decrement configuration (0 to 3).
    pub fn set_motion_detection_counter_decrement(&self, decrement: u8) -> (r: Result<FieldWrite, Mpu9250Error>)
        ensures
            r == if decrement > 3 {
                Err(Mpu9250Error::InvalidParameter)
            } else {
                Ok(self.spec_field(RA_MOT_DETECT_CTRL, DETECT_MOT_COUNT_BIT, DETECT_MOT_COUNT_LENGTH).with_data(decrement))
            },
    {
        if decrement > 3 {
            return Err(Mpu9250Error::InvalidParameter);
        }
        Ok(self.field(RA_MOT_DETECT_CTRL, DETECT_MOT_COUNT_BIT, DETECT_MOT_COUNT_LENGTH).write(decrement))
    }

    /// Get current FIFO buffer size: the number of bytes stored in the FIFO, FIFO_COUNTH
    /// holding the high byte and FIFO_COUNTL the low byte.
    pub fn get_fifo_count(&self) -> (r: UnsignedWordRead)
        ensures
            r.block == self.spec_block(RA_FIFO_COUNTH, 2),
    {
        UnsignedWordRead { block: self.block(RA_FIFO_COUNTH, 2) }
    }

    /// X-axis accelerometer offset (XA_OFFS_H and XA_OFFS_L_TC).
    pub fn get_x_accel_offset(&self) -> (r: WordRead)
        ensures
            r.block == self.spec_block(RA_XA_OFFS_H, 2),
    {
        WordRead { block: self.block(RA_XA_OFFS_H, 2) }
    }

    /// Y-axis accelerometer offset (YA_OFFS_H and YA_OFFS_L_TC).
    pub fn get_y_accel_offset(&self) -> (r: WordRead)
        ensures
            r.block == self.spec_block(RA_YA_OFFS_H, 2),
    {
        WordRead { block: self.block(RA_YA_OFFS_H, 2) }
    }

    /// Z-axis accelerometer offset (ZA_OFFS_H and ZA_OFFS_L_TC).
    pub fn get_z_accel_offset(&self) -> (r: WordRead)
        ensures
            r.block == self.spec_block(RA_ZA_OFFS_H, 2),
    {
        WordRead { block: self.block(RA_ZA_OFFS_H, 2) }
    }

    /// X-axis gyroscope user offset (XG_OFFS_USRH and XG_OFFS_USRL).
    pub fn get_x_gyro_offset_user(&self) -> (r: WordRead)
        ensures
            r.block == self.spec_block(RA_XG_OFFS_USRH, 2),
    {
        WordRead { block: self.block(RA_XG_OFFS_USRH, 2) }
    }

    /// Y-axis gyroscope user offset (YG_OFFS_USRH and YG_OFFS_USRL).
    pub fn get_y_gyro_offset_user(&self) -> (r: WordRead)
        ensures
            r.block == self.spec_block(RA_YG_OFFS_USRH, 2),
    {
        WordRead { block: self.block(RA_YG_OFFS_USRH, 2) }
    }

    /// Z-axis gyroscope user offset (ZG_OFFS_USRH and ZG_OFFS_USRL).
    pub fn get_z_gyro_offset_user(&self) -> (r: WordRead)
        ensures
            r.block == self.spec_block(RA_ZG_OFFS_USRH, 2),
    {
        WordRead { block: self.block(RA_ZG_OFFS_USRH, 2) }
    }

    /// The BANK_SEL value selecting DMP memory bank `bank` (its five low bits), with the
    /// user-bank and prefetch flags.
    pub open spec fn spec_bank_value(bank: u8, prefetch_enabled: bool, user_bank: bool) -> u8 {
        ((bank & 0x1F) | (if user_bank { 0x20u8 } else { 0u8 }) | (if prefetch_enabled {
            0x40u8
        } else {
            0u8
        })) as u8
    }

    /// Select the DMP memory bank.
    pub fn set_memory_bank(&self, bank: u8, prefetch_enabled: bool, user_bank: bool) -> (w: FieldWrite)
        ensures
            w == self.spec_register(RA_BANK_SEL).with_data(
                Self::spec_bank_value(bank, prefetch_enabled, user_bank),
            ),
    {
        let user: u8 = if user_bank {
            0x20
        } else {
            0
        };
        let prefetch: u8 = if prefetch_enabled {
            0x40
        } else {
            0
        };
        self.register(RA_BANK_SEL).write((bank & 0x1F) | user | prefetch)
    }

    /// Get the auxiliary I2C supply voltage level.
    /// Bit 7 of YG_OFFS_TC (0x01).
    pub fn get_aux_vddio_level(&self) -> (r: FieldRead)
        ensures
            r == self.spec_field(RA_YG_OFFS_TC, TC_PWR_MODE_BIT, 1),
    {
        self.field(RA_YG_OFFS_TC, TC_PWR_MODE_BIT, 1)
    }

    /// Set the auxiliary I2C supply voltage level.
    /// Bit 7 of YG_OFFS_TC (0x01).
    pub fn set_aux_vddio_level(&self, enabled: bool) -> (w: FieldWrite)
        ensures
            w == self.spec_field(RA_YG_OFFS_TC, TC_PWR_MODE_BIT, 1).with_data(spec_flag(enabled)),
    {
        self.field(RA_YG_OFFS_TC, TC_PWR_MODE_BIT, 1).write(flag(enabled))
    }

    /// Get gyroscope output rate divider.
    /// The whole SMPLRT_DIV (0x19) register.
    pub fn get_rate(&self) -> (r: FieldRead)
        ensures
            r == self.spec_register(RA_SMPLRT_DIV),
    {
        self.register(RA_SMPLRT_DIV)
    }

    /// Set gyroscope sample rate divider.
    /// The whole SMPLRT_DIV (0x19) register.
    pub fn set_rate(&self, rate: u8) -> (w: FieldWrite)
        ensures
            w == self.spec_register(RA_SMPLRT_DIV).with_data(rate),
    {
        self.register(RA_SMPLRT_DIV).write(rate)
    }

    /// Get external FSYNC configuration.
    /// Bits 5..3 of CONFIG (0x1A).
    pub fn get_external_frame_sync(&self) -> (r: FieldRead)
        ensures
            r == self.spec_field(RA_CONFIG, CFG_EXT_SYNC_SET_BIT, CFG_EXT_SYNC_SET_LENGTH),
    {
        self.field(RA_CONFIG, CFG_EXT_SYNC_SET_BIT, CFG_EXT_SYNC_SET_LENGTH)
    }

    /// Set external FSYNC configuration.
    /// Bits 5..3 of CONFIG (0x1A).
    pub fn set_external_frame_sync(&self, sync: u8) -> (w: FieldWrite)
        ensures
            w == self.spec_field(RA_CONFIG, CFG_EXT_SYNC_SET_BIT, CFG_EXT_SYNC_SET_LENGTH).with_data(sync),
    {
        self.field(RA_CONFIG, CFG_EXT_SYNC_SET_BIT, CFG_EXT_SYNC_SET_LENGTH).write(sync)
    }

    /// Get digital low-pass filter configuration.
    /// Bits 2..0 of CONFIG (0x1A).
    pub fn get_dlpf_mode(&self) -> (r: FieldRead)
        ensures
            r == self.spec_field(RA_CONFIG, CFG_DLPF_CFG_BIT, CFG_DLPF_CFG_LENGTH),
    {
        self.field(RA_CONFIG, CFG_DLPF_CFG_BIT, CFG_DLPF_CFG_LENGTH)
    }

    /// Set digital low-pass filter configuration.
    /// Bits 2..0 of CONFIG (0x1A).
    pub fn set_dlpf_mode(&self, mode: u8) -> (w: FieldWrite)
        ensures
            w == self.spec_field(RA_CONFIG, CFG_DLPF_CFG_BIT, CFG_DLPF_CFG_LENGTH).with_data(mode),
    {
        self.field(RA_CONFIG, CFG_DLPF_CFG_BIT, CFG_DLPF_CFG_LENGTH).write(mode)
    }

    /// Get first in first out buffer mode configuration: 0 lets the FIFO overwrite old
    /// values when it is full, 1 stops writes to a full FIFO.
    /// Bit 6 of CONFIG (0x1A).
    pub fn get_fifo_mode(&self) -> (r: FieldRead)
        ensures
            r == self.spec_field(RA_CONFIG, CFG_FIFO_MODE_BIT, CFG_FIFO_MODE_LENGTH),
    {
        self.field(RA_CONFIG, CFG_FIFO_MODE_BIT, CFG_FIFO_MODE_LENGTH)
    }

    /// Set fifo mode configuration.
    /// Bit 6 of CONFIG (0x1A), apart from the frame-sync and low-pass filter fields.
    pub fn set_fifo_mode(&self, mode: u8) -> (w: FieldWrite)
        ensures
            w == self.spec_field(RA_CONFIG, CFG_FIFO_MODE_BIT, CFG_FIFO_MODE_LENGTH).with_data(mode),
    {
        self.field(RA_CONFIG, CFG_FIFO_MODE_BIT, CFG_FIFO_MODE_LENGTH).write(mode)
    }

    /// Get full-scale gyroscope range.
    /// Bits 4..3 of GYRO_CONFIG (0x1B).
    pub fn get_full_scale_gyro_range(&self) -> (r: FieldRead)
        ensures
            r == self.spec_field(RA_GYRO_CONFIG, GCONFIG_FS_SEL_BIT, GCONFIG_FS_SEL_LENGTH),
    {
        self.field(RA_GYRO_CONFIG, GCONFIG_FS_SEL_BIT, GCONFIG_FS_SEL_LENGTH)
    }

    /// Set full-scale gyroscope range.
    /// Bits 4..3 of GYRO_CONFIG (0x1B).
    pub fn set_full_scale_gyro_range(&self, range: u8) -> (w: FieldWrite)
        ensures
            w == self.spec_field(RA_GYRO_CONFIG, GCONFIG_FS_SEL_BIT, GCONFIG_FS_SEL_LENGTH).with_data(range),
    {
        self.field(RA_GYRO_CONFIG, GCONFIG_FS_SEL_BIT, GCONFIG_FS_SEL_LENGTH).write(range)
    }

    /// Get self-test enabled setting for accelerometer X axis.
    /// Bit 7 of ACCEL_CONFIG (0x1C).
    pub fn get_accel_x_self_test(&self) -> (r: FieldRead)
        ensures
            r == self.spec_field(RA_ACCEL_CONFIG, ACONFIG_XA_ST_BIT, 1),
    {
        self.field(RA_ACCEL_CONFIG, ACONFIG_XA_ST_BIT, 1)
    }

    /// Set self-test enabled setting for accelerometer X axis.
    /// Bit 7 of ACCEL_CONFIG (0x1C).
    pub fn set_accel_x_self_test(&self, enabled: bool) -> (w: FieldWrite)
        ensures
            w == self.spec_field(RA_ACCEL_CONFIG, ACONFIG_XA_ST_BIT, 1).with_data(spec_flag(enabled)),
    {
        self.field(RA_ACCEL_CONFIG, ACONFIG_XA_ST_BIT, 1).write(flag(enabled))
    }

    /// Get self-test enabled value for accelerometer Y axis.
    /// Bit 6 of ACCEL_CONFIG (0x1C).
    pub fn get_accel_y_self_test(&self) -> (r: FieldRead)
        ensures
            r == self.spec_field(RA_ACCEL_CONFIG, ACONFIG_YA_ST_BIT, 1),
    {
        self.field(RA_ACCEL_CONFIG, ACONFIG_YA_ST_BIT, 1)
    }

    /// Set self-test enabled value for accelerometer Y axis.
    /// Bit 6 of ACCEL_CONFIG (0x1C).
    pub fn set_accel_y_self_test(&self, enabled: bool) -> (w: FieldWrite)
        ensures
            w == self.spec_field(RA_ACCEL_CONFIG, ACONFIG_YA_ST_BIT, 1).with_data(spec_flag(enabled)),
    {
        self.field(RA_ACCEL_CONFIG, ACONFIG_YA_ST_BIT, 1).write(flag(enabled))
    }

    /// Get self-test enabled value for accelerometer Z axis.
    /// Bit 5 of ACCEL_CONFIG (0x1C).
    pub fn get_accel_z_self_test(&self) -> (r: FieldRead)
        ensures
            r == self.spec_field(RA_ACCEL_CONFIG, ACONFIG_ZA_ST_BIT, 1),
    {
        self.field(RA_ACCEL_CONFIG, ACONFIG_ZA_ST_BIT, 1)
    }

    /// Set self-test enabled value for accelerometer Z axis.
    /// Bit 5 of ACCEL_CONFIG (0x1C).
    pub fn set_accel_z_self_test(&self, enabled: bool) -> (w: FieldWrite)
        ensures
            w == self.spec_field(RA_ACCEL_CONFIG, ACONFIG_ZA_ST_BIT, 1).with_data(spec_flag(enabled)),
    {
        self.field(RA_ACCEL_CONFIG, ACONFIG_ZA_ST_BIT, 1).write(flag(enabled))
    }

    /// Get full-scale accelerometer range.
    /// Bits 4..3 of ACCEL_CONFIG (0x1C).
    pub fn get_full_scale_accel_range(&self) -> (r: FieldRead)
        ensures
            r == self.spec_field(RA_ACCEL_CONFIG, ACONFIG_AFS_SEL_BIT, ACONFIG_AFS_SEL_LENGTH),
    {
        self.field(RA_ACCEL_CONFIG, ACONFIG_AFS_SEL_BIT, ACONFIG_AFS_SEL_LENGTH)
    }

    /// Set full-scale accelerometer range.
    /// Bits 4..3 of ACCEL_CONFIG (0x1C).
    pub fn set_full_scale_accel_range(&self, range: u8) -> (w: FieldWrite)
        ensures
            w == self.spec_field(RA_ACCEL_CONFIG, ACONFIG_AFS_SEL_BIT, ACONFIG_AFS_SEL_LENGTH).with_data(range),
    {
        self.field(RA_ACCEL_CONFIG, ACONFIG_AFS_SEL_BIT, ACONFIG_AFS_SEL_LENGTH).write(range)
    }

    /// Get the high-pass filter configuration.
    /// Bits 2..0 of ACCEL_CONFIG (0x1C).
    pub fn get_dhpf_mode(&self) -> (r: FieldRead)
        ensures
            r == self.spec_field(RA_ACCEL_CONFIG, ACONFIG_ACCEL_HPF_BIT, ACONFIG_ACCEL_HPF_LENGTH),
    {
        self.field(RA_ACCEL_CONFIG, ACONFIG_ACCEL_HPF_BIT, ACONFIG_ACCEL_HPF_LENGTH)
    }

    /// Set the high-pass filter configuration.
    /// Bits 2..0 of ACCEL_CONFIG (0x1C).
    pub fn set_dhpf_mode(&self, mode: u8) -> (w: FieldWrite)
        ensures
            w == self.spec_field(RA_ACCEL_CONFIG, ACONFIG_ACCEL_HPF_BIT, ACONFIG_ACCEL_HPF_LENGTH).with_data(mode),
    {
        self.field(RA_ACCEL_CONFIG, ACONFIG_ACCEL_HPF_BIT, ACONFIG_ACCEL_HPF_LENGTH).write(mode)
    }

    /// Get free-fall event acceleration threshold.
    /// The whole FF_THR (0x1D) register.
    pub fn get_free_fall_detection_threshold(&self) -> (r: FieldRead)
        ensures
            r == self.spec_register(RA_FF_THR),
    {
        self.register(RA_FF_THR)
    }

    /// Set free-fall event acceleration threshold.
    /// The whole FF_THR (0x1D) register.
    pub fn set_free_fall_detection_threshold(&self, threshold: u8) -> (w: FieldWrite)
        ensures
            w == self.spec_register(RA_FF_THR).with_data(threshold),
    {
        self.register(RA_FF_THR).write(threshold)
    }

    /// Get free-fall event duration threshold.
    /// The whole FF_DUR (0x1E) register.
    pub fn get_free_fall_detection_duration(&self) -> (r: FieldRead)
        ensures
            r == self.spec_register(RA_FF_DUR),
    {
        self.register(RA_FF_DUR)
    }

    /// Set free-fall event duration threshold.
    /// The whole FF_DUR (0x1E) register.
    pub fn set_free_fall_detection_duration(&self, duration: u8) -> (w: FieldWrite)
        ensures
            w == self.spec_register(RA_FF_DUR).with_data(duration),
    {
        self.register(RA_FF_DUR).write(duration)
    }

    /// Get motion detection event acceleration threshold.
    /// The whole MOT_THR (0x1F) register.
    pub fn get_motion_detection_threshold(&self) -> (r: FieldRead)
        ensures
            r == self.spec_register(RA_MOT_THR),
    {
        self.register(RA_MOT_THR)
    }

    /// Set free-fall event acceleration threshold.
    /// The whole MOT_THR (0x1F) register.
    pub fn set_motion_detection_threshold(&self, threshold: u8) -> (w: FieldWrite)
        ensures
            w == self.spec_register(RA_MOT_THR).with_data(threshold),
    {
        self.register(RA_MOT_THR).write(threshold)
    }

    /// Get motion detection event duration threshold.
    /// The whole MOT_DUR (0x20) register.
    pub fn get_motion_detection_duration(&self) -> (r: FieldRead)
        ensures
            r == self.spec_register(RA_MOT_DUR),
    {
        self.register(RA_MOT_DUR)
    }

    /// Set motion detection event duration threshold.
    /// The whole MOT_DUR (0x20) register.
    pub fn set_motion_detection_duration(&self, duration: u8) -> (w: FieldWrite)
        ensures
            w == self.spec_register(RA_MOT_DUR).with_data(duration),
    {
        self.register(RA_MOT_DUR).write(duration)
    }

    /// Get zero motion detection event acceleration threshold.
    /// The whole ZRMOT_THR (0x21) register.
    pub fn get_zero_motion_detection_threshold(&self) -> (r: FieldRead)
        ensures
            r == self.spec_register(RA_ZRMOT_THR),
    {
        self.register(RA_ZRMOT_THR)
    }

    /// Set zero motion detection event acceleration threshold.
    /// The whole ZRMOT_THR (0x21) register.
    pub fn set_zero_motion_detection_threshold(&self, threshold: u8) -> (w: FieldWrite)
        ensures
            w == self.spec_register(RA_ZRMOT_THR).with_data(threshold),
    {
        self.register(RA_ZRMOT_THR).write(threshold)
    }

    /// Get zero motion detection event duration threshold.
    /// The whole ZRMOT_DUR (0x22) register.
    pub fn get_zero_motion_detection_duration(&self) -> (r: FieldRead)
        ensures
            r == self.spec_register(RA_ZRMOT_DUR),
    {
        self.register(RA_ZRMOT_DUR)
    }

    /// Set zero motion detection event duration threshold.
    /// The whole ZRMOT_DUR (0x22) register.
    pub fn set_zero_motion_detection_duration(&self, duration: u8) -> (w: FieldWrite)
        ensures
            w == self.spec_register(RA_ZRMOT_DUR).with_data(duration),
    {
        self.register(RA_ZRMOT_DUR).write(duration)
    }

    /// Get temperature FIFO enabled value.
    /// Bit 7 of FIFO_EN (0x23).
    pub fn get_temp_fifo_enabled(&self) -> (r: FieldRead)
        ensures
            r == self.spec_field(RA_FIFO_EN, TEMP_FIFO_EN_BIT, 1),
    {
        self.field(RA_FIFO_EN, TEMP_FIFO_EN_BIT, 1)
    }

    /// Set temperature FIFO enabled value.
    /// Bit 7 of FIFO_EN (0x23).
    pub fn set_temp_fifo_enabled(&self, enabled: bool) -> (w: FieldWrite)
        ensures
            w == self.spec_field(RA_FIFO_EN, TEMP_FIFO_EN_BIT, 1).with_data(spec_flag(enabled)),
    {
        self.field(RA_FIFO_EN, TEMP_FIFO_EN_BIT, 1).write(flag(enabled))
    }

    /// Get gyroscope X-axis FIFO enabled value.
    /// Bit 6 of FIFO_EN (0x23).
    pub fn get_x_gyro_fifo_enabled(&self) -> (r: FieldRead)
        ensures
            r == self.spec_field(RA_FIFO_EN, XG_FIFO_EN_BIT, 1),
    {
        self.field(RA_FIFO_EN, XG_FIFO_EN_BIT, 1)
    }

    /// Set gyroscope X-axis FIFO enabled value.
    /// Bit 6 of FIFO_EN (0x23).
    pub fn set_x_gyro_fifo_enabled(&self, enabled: bool) -> (w: FieldWrite)
        ensures
            w == self.spec_field(RA_FIFO_EN, XG_FIFO_EN_BIT, 1).with_data(spec_flag(enabled)),
    {
        self.field(RA_FIFO_EN, XG_FIFO_EN_BIT, 1).write(flag(enabled))
    }

    /// Get gyroscope Y-axis FIFO enabled value.
    /// Bit 5 of FIFO_EN (0x23).
    pub fn get_y_gyro_fifo_enabled(&self) -> (r: FieldRead)
        ensures
            r == self.spec_field(RA_FIFO_EN, YG_FIFO_EN_BIT, 1),
    {
        self.field(RA_FIFO_EN, YG_FIFO_EN_BIT, 1)
    }

    /// Set gyroscope Y-axis FIFO enabled value.
    /// Bit 5 of FIFO_EN (0x23).
    pub fn set_y_gyro_fifo_enabled(&self, enabled: bool) -> (w: FieldWrite)
        ensures
            w == self.spec_field(RA_FIFO_EN, YG_FIFO_EN_BIT, 1).with_data(spec_flag(enabled)),
    {
        self.field(RA_FIFO_EN, YG_FIFO_EN_BIT, 1).write(flag(enabled))
    }

    /// Get gyroscope Z-axis FIFO enabled value.
    /// Bit 4 of FIFO_EN (0x23).
    pub fn get_z_gyro_fifo_enabled(&self) -> (r: FieldRead)
        ensures
            r == self.spec_field(RA_FIFO_EN, ZG_FIFO_EN_BIT, 1),
    {
        self.field(RA_FIFO_EN, ZG_FIFO_EN_BIT, 1)
    }

    /// Set gyroscope Z-axis FIFO enabled value.
    /// Bit 4 of FIFO_EN (0x23).
    pub fn set_z_gyro_fifo_enabled(&self, enabled: bool) -> (w: FieldWrite)
        ensures
            w == self.spec_field(RA_FIFO_EN, ZG_FIFO_EN_BIT, 1).with_data(spec_flag(enabled)),
    {
        self.field(RA_FIFO_EN, ZG_FIFO_EN_BIT, 1).write(flag(enabled))
    }

    /// Get accelerometer FIFO enabled value.
    /// Bit 3 of FIFO_EN (0x23).
    pub fn get_accel_fifo_enabled(&self) -> (r: FieldRead)
        ensures
            r == self.spec_field(RA_FIFO_EN, ACCEL_FIFO_EN_BIT, 1),
    {
        self.field(RA_FIFO_EN, ACCEL_FIFO_EN_BIT, 1)
    }

    /// Set accelerometer FIFO enabled value.
    /// Bit 3 of FIFO_EN (0x23).
    pub fn set_accel_fifo_enabled(&self, enabled: bool) -> (w: FieldWrite)
        ensures
            w == self.spec_field(RA_FIFO_EN, ACCEL_FIFO_EN_BIT, 1).with_data(spec_flag(enabled)),
    {
        self.field(RA_FIFO_EN, ACCEL_FIFO_EN_BIT, 1).write(flag(enabled))
    }

    /// Get Slave 2 FIFO enabled value.
    /// Bit 2 of FIFO_EN (0x23).
    pub fn get_slave2_fifo_enabled(&self) -> (r: FieldRead)
        ensures
            r == self.spec_field(RA_FIFO_EN, SLV2_FIFO_EN_BIT, 1),
    {
        self.field(RA_FIFO_EN, SLV2_FIFO_EN_BIT, 1)
    }

    /// Set Slave 2 FIFO enabled value.
    /// Bit 2 of FIFO_EN (0x23).
    pub fn set_slave2_fifo_enabled(&self, enabled: bool) -> (w: FieldWrite)
        ensures
            w == self.spec_field(RA_FIFO_EN, SLV2_FIFO_EN_BIT, 1).with_data(spec_flag(enabled)),
    {
        self.field(RA_FIFO_EN, SLV2_FIFO_EN_BIT, 1).write(flag(enabled))
    }

    /// Get Slave 1 FIFO enabled value.
    /// Bit 1 of FIFO_EN (0x23).
    pub fn get_slave1_fifo_enabled(&self) -> (r: FieldRead)
        ensures
            r == self.spec_field(RA_FIFO_EN, SLV1_FIFO_EN_BIT, 1),
    {
        self.field(RA_FIFO_EN, SLV1_FIFO_EN_BIT, 1)
    }

    /// Set Slave 1 FIFO enabled value.
    /// Bit 1 of FIFO_EN (0x23).
    pub fn set_slave1_fifo_enabled(&self, enabled: bool) -> (w: FieldWrite)
        ensures
            w == self.spec_field(RA_FIFO_EN, SLV1_FIFO_EN_BIT, 1).with_data(spec_flag(enabled)),
    {
        self.field(RA_FIFO_EN, SLV1_FIFO_EN_BIT, 1).write(flag(enabled))
    }

    /// Get Slave 0 FIFO enabled value.
    /// Bit 0 of FIFO_EN (0x23).
    pub fn get_slave0_fifo_enabled(&self) -> (r: FieldRead)
        ensures
            r == self.spec_field(RA_FIFO_EN, SLV0_FIFO_EN_BIT, 1),
    {
        self.field(RA_FIFO_EN, SLV0_FIFO_EN_BIT, 1)
    }

    /// Set Slave 0 FIFO enabled value.
    /// Bit 0 of FIFO_EN (0x23).
    pub fn set_slave0_fifo_enabled(&self, enabled: bool) -> (w: FieldWrite)
        ensures
            w == self.spec_field(RA_FIFO_EN, SLV0_FIFO_EN_BIT, 1).with_data(spec_flag(enabled)),
    {
        self.field(RA_FIFO_EN, SLV0_FIFO_EN_BIT, 1).write(flag(enabled))
    }

    /// Get multi-master enabled value.
    /// Bit 7 of I2C_MST_CTRL (0x24).
    pub fn get_multi_master_enabled(&self) -> (r: FieldRead)
        ensures
            r == self.spec_field(RA_I2C_MST_CTRL, MULT_MST_EN_BIT, 1),
    {
        self.field(RA_I2C_MST_CTRL, MULT_MST_EN_BIT, 1)
    }

    /// Set multi-master enabled value.
    /// Bit 7 of I2C_MST_CTRL (0x24).
    pub fn set_multi_master_enabled(&self, enabled: bool) -> (w: FieldWrite)
        ensures
            w == self.spec_field(RA_I2C_MST_CTRL, MULT_MST_EN_BIT, 1).with_data(spec_flag(enabled)),
    {
        self.field(RA_I2C_MST_CTRL, MULT_MST_EN_BIT, 1).write(flag(enabled))
    }

    /// Get wait-for-external-sensor-data enabled value.
    /// Bit 6 of I2C_MST_CTRL (0x24).
    pub fn get_wait_for_external_sensor_enabled(&self) -> (r: FieldRead)
        ensures
            r == self.spec_field(RA_I2C_MST_CTRL, WAIT_FOR_ES_BIT, 1),
    {
        self.field(RA_I2C_MST_CTRL, WAIT_FOR_ES_BIT, 1)
    }

    /// Set wait-for-external-sensor-data enabled value.
    /// Bit 6 of I2C_MST_CTRL (0x24).
    pub fn set_wait_for_external_sensor_enabled(&self, enabled: bool) -> (w: FieldWrite)
        ensures
            w == self.spec_field(RA_I2C_MST_CTRL, WAIT_FOR_ES_BIT, 1).with_data(spec_flag(enabled)),
    {
        self.field(RA_I2C_MST_CTRL, WAIT_FOR_ES_BIT, 1).write(flag(enabled))
    }

    /// Get Slave 3 FIFO enabled value.
    /// Bit 5 of I2C_MST_CTRL (0x24).
    pub fn get_slave3_fifo_enabled(&self) -> (r: FieldRead)
        ensures
            r == self.spec_field(RA_I2C_MST_CTRL, SLV_3_FIFO_EN_BIT, 1),
    {
        self.field(RA_I2C_MST_CTRL, SLV_3_FIFO_EN_BIT, 1)
    }

    /// Set Slave 3 FIFO enabled value.
    /// Bit 5 of I2C_MST_CTRL (0x24).
    pub fn set_slave3_fifo_enabled(&self, enabled: bool) -> (w: FieldWrite)
        ensures
            w == self.spec_field(RA_I2C_MST_CTRL, SLV_3_FIFO_EN_BIT, 1).with_data(spec_flag(enabled)),
    {
        self.field(RA_I2C_MST_CTRL, SLV_3_FIFO_EN_BIT, 1).write(flag(enabled))
    }

    /// Get slave read/write transition enabled value.
    /// Bit 4 of I2C_MST_CTRL (0x24).
    pub fn get_slave_read_write_transition_enabled(&self) -> (r: FieldRead)
        ensures
            r == self.spec_field(RA_I2C_MST_CTRL, I2C_MST_P_NSR_BIT, 1),
    {
        self.field(RA_I2C_MST_CTRL, I2C_MST_P_NSR_BIT, 1)
    }

    /// Set slave read/write transition enabled value.
    /// Bit 4 of I2C_MST_CTRL (0x24).
    pub fn set_slave_read_write_transition_enabled(&self, enabled: bool) -> (w: FieldWrite)
        ensures
            w == self.spec_field(RA_I2C_MST_CTRL, I2C_MST_P_NSR_BIT, 1).with_data(spec_flag(enabled)),
    {
        self.field(RA_I2C_MST_CTRL, I2C_MST_P_NSR_BIT, 1).write(flag(enabled))
    }

    /// Get I2C master clock speed.
    /// Bits 3..0 of I2C_MST_CTRL (0x24).
    pub fn get_master_clock_speed(&self) -> (r: FieldRead)
        ensures
            r == self.spec_field(RA_I2C_MST_CTRL, I2C_MST_CLK_BIT, I2C_MST_CLK_LENGTH),
    {
        self.field(RA_I2C_MST_CTRL, I2C_MST_CLK_BIT, I2C_MST_CLK_LENGTH)
    }

    /// Set I2C master clock speed.
    /// Bits 3..0 of I2C_MST_CTRL (0x24).
    pub fn set_master_clock_speed(&self, speed: u8) -> (w: FieldWrite)
        ensures
            w == self.spec_field(RA_I2C_MST_CTRL, I2C_MST_CLK_BIT, I2C_MST_CLK_LENGTH).with_data(speed),
    {
        self.field(RA_I2C_MST_CTRL, I2C_MST_CLK_BIT, I2C_MST_CLK_LENGTH).write(speed)
    }

    /// Get the I2C address of Slave 4.
    /// The whole I2C_SLV4_ADDR (0x31) register.
    pub fn get_slave4_address(&self) -> (r: FieldRead)
        ensures
            r == self.spec_register(RA_I2C_SLV4_ADDR),
    {
        self.register(RA_I2C_SLV4_ADDR)
    }

    /// Set the I2C address of Slave 4.
    /// The whole I2C_SLV4_ADDR (0x31) register.
    pub fn set_slave4_address(&self, address: u8) -> (w: FieldWrite)
        ensures
            w == self.spec_register(RA_I2C_SLV4_ADDR).with_data(address),
    {
        self.register(RA_I2C_SLV4_ADDR).write(address)
    }

    /// Get the active internal register for the Slave 4.
    /// The whole I2C_SLV4_REG (0x32) register.
    pub fn get_slave4_register(&self) -> (r: FieldRead)
        ensures
            r == self.spec_register(RA_I2C_SLV4_REG),
    {
        self.register(RA_I2C_SLV4_REG)
    }

    /// Set the active internal register for Slave 4.
    /// The whole I2C_SLV4_REG (0x32) register.
    pub fn set_slave4_register(&self, reg: u8) -> (w: FieldWrite)
        ensures
            w == self.spec_register(RA_I2C_SLV4_REG).with_data(reg),
    {
        self.register(RA_I2C_SLV4_REG).write(reg)
    }

    /// Set new byte to write to Slave 4.
    /// The whole I2C_SLV4_DO (0x33) register.
    pub fn set_slave4_output_byte(&self, data: u8) -> (w: FieldWrite)
        ensures
            w == self.spec_register(RA_I2C_SLV4_DO).with_data(data),
    {
        self.register(RA_I2C_SLV4_DO).write(data)
    }

    /// Get the enabled value for the Slave 4.
    /// Bit 7 of I2C_SLV4_CTRL (0x34).
    pub fn get_slave4_enabled(&self) -> (r: FieldRead)
        ensures
            r == self.spec_field(RA_I2C_SLV4_CTRL, I2C_SLV4_EN_BIT, 1),
    {
        self.field(RA_I2C_SLV4_CTRL, I2C_SLV4_EN_BIT, 1)
    }

    /// Set the enabled value for Slave 4.
    /// Bit 7 of I2C_SLV4_CTRL (0x34).
    pub fn set_slave4_enabled(&self, enabled: bool) -> (w: FieldWrite)
        ensures
            w == self.spec_field(RA_I2C_SLV4_CTRL, I2C_SLV4_EN_BIT, 1).with_data(spec_flag(enabled)),
    {
        self.field(RA_I2C_SLV4_CTRL, I2C_SLV4_EN_BIT, 1).write(flag(enabled))
    }

    /// Get the enabled value for Slave 4 transaction interrupts.
    /// Bit 6 of I2C_SLV4_CTRL (0x34).
    pub fn get_slave4_interrupt_enabled(&self) -> (r: FieldRead)
        ensures
            r == self.spec_field(RA_I2C_SLV4_CTRL, I2C_SLV4_INT_EN_BIT, 1),
    {
        self.field(RA_I2C_SLV4_CTRL, I2C_SLV4_INT_EN_BIT, 1)
    }

    /// Set the enabled value for Slave 4 transaction interrupts.
    /// Bit 6 of I2C_SLV4_CTRL (0x34).
    pub fn set_slave4_interrupt_enabled(&self, enabled: bool) -> (w: FieldWrite)
        ensures
            w == self.spec_field(RA_I2C_SLV4_CTRL, I2C_SLV4_INT_EN_BIT, 1).with_data(spec_flag(enabled)),
    {
        self.field(RA_I2C_SLV4_CTRL, I2C_SLV4_INT_EN_BIT, 1).write(flag(enabled))
    }

    /// Get write mode for Slave 4.
    /// Bit 5 of I2C_SLV4_CTRL (0x34).
    pub fn get_slave4_write_mode(&self) -> (r: FieldRead)
        ensures
            r == self.spec_field(RA_I2C_SLV4_CTRL, I2C_SLV4_REG_DIS_BIT, 1),
    {
        self.field(RA_I2C_SLV4_CTRL, I2C_SLV4_REG_DIS_BIT, 1)
    }

    /// Set write mode for the Slave 4.
    /// Bit 5 of I2C_SLV4_CTRL (0x34).
    pub fn set_slave4_write_mode(&self, mode: bool) -> (w: FieldWrite)
        ensures
            w == self.spec_field(RA_I2C_SLV4_CTRL, I2C_SLV4_REG_DIS_BIT, 1).with_data(spec_flag(mode)),
    {
        self.field(RA_I2C_SLV4_CTRL, I2C_SLV4_REG_DIS_BIT, 1).write(flag(mode))
    }

    /// Get Slave 4 master delay value.
    /// Bits 4..0 of I2C_SLV4_CTRL (0x34).
    pub fn get_slave4_master_delay(&self) -> (r: FieldRead)
        ensures
            r == self.spec_field(RA_I2C_SLV4_CTRL, I2C_SLV4_MST_DLY_BIT, I2C_SLV4_MST_DLY_LENGTH),
    {
        self.field(RA_I2C_SLV4_CTRL, I2C_SLV4_MST_DLY_BIT, I2C_SLV4_MST_DLY_LENGTH)
    }

    /// Set Slave 4 master delay value.
    /// Bits 4..0 of I2C_SLV4_CTRL (0x34).
    pub fn set_slave4_master_delay(&self, delay: u8) -> (w: FieldWrite)
        ensures
            w == self.spec_field(RA_I2C_SLV4_CTRL, I2C_SLV4_MST_DLY_BIT, I2C_SLV4_MST_DLY_LENGTH).with_data(delay),
    {
        self.field(RA_I2C_SLV4_CTRL, I2C_SLV4_MST_DLY_BIT, I2C_SLV4_MST_DLY_LENGTH).write(delay)
    }

    /// Get last available byte read from Slave 4.
    /// The whole I2C_SLV4_DI (0x35) register.
    pub fn get_slave4_input_byte(&self) -> (r: FieldRead)
        ensures
            r == self.spec_register(RA_I2C_SLV4_DI),
    {
        self.register(RA_I2C_SLV4_DI)
    }

    /// Get FSYNC interrupt status (the pass-through of the FSYNC pin).
    /// Bit 7 of I2C_MST_STATUS (0x36).
    pub fn get_passthrough_status(&self) -> (r: FieldRead)
        ensures
            r == self.spec_field(RA_I2C_MST_STATUS, MST_PASS_THROUGH_BIT, 1),
    {
        self.field(RA_I2C_MST_STATUS, MST_PASS_THROUGH_BIT, 1)
    }

    /// Get Slave 4 transaction done status.
    /// Bit 6 of I2C_MST_STATUS (0x36).
    pub fn get_slave4_is_done(&self) -> (r: FieldRead)
        ensures
            r == self.spec_field(RA_I2C_MST_STATUS, MST_I2C_SLV4_DONE_BIT, 1),
    {
        self.field(RA_I2C_MST_STATUS, MST_I2C_SLV4_DONE_BIT, 1)
    }

    /// Get master arbitration lost status.
    /// Bit 5 of I2C_MST_STATUS (0x36).
    pub fn get_lost_arbitration(&self) -> (r: FieldRead)
        ensures
            r == self.spec_field(RA_I2C_MST_STATUS, MST_I2C_LOST_ARB_BIT, 1),
    {
        self.field(RA_I2C_MST_STATUS, MST_I2C_LOST_ARB_BIT, 1)
    }

    /// Get Slave 4 NACK status.
    /// Bit 4 of I2C_MST_STATUS (0x36).
    pub fn get_slave4_nack(&self) -> (r: FieldRead)
        ensures
            r == self.spec_field(RA_I2C_MST_STATUS, MST_I2C_SLV4_NACK_BIT, 1),
    {
        self.field(RA_I2C_MST_STATUS, MST_I2C_SLV4_NACK_BIT, 1)
    }

    /// Get Slave 3 NACK status.
    /// Bit 3 of I2C_MST_STATUS (0x36).
    pub fn get_slave3_nack(&self) -> (r: FieldRead)
        ensures
            r == self.spec_field(RA_I2C_MST_STATUS, MST_I2C_SLV3_NACK_BIT, 1),
    {
        self.field(RA_I2C_MST_STATUS, MST_I2C_SLV3_NACK_BIT, 1)
    }

    /// Get Slave 2 NACK status.
    /// Bit 2 of I2C_MST_STATUS (0x36).
    pub fn get_slave2_nack(&self) -> (r: FieldRead)
        ensures
            r == self.spec_field(RA_I2C_MST_STATUS, MST_I2C_SLV2_NACK_BIT, 1),
    {
        self.field(RA_I2C_MST_STATUS, MST_I2C_SLV2_NACK_BIT, 1)
    }

    /// Get Slave 1 NACK status.
    /// Bit 1 of I2C_MST_STATUS (0x36).
    pub fn get_slave1_nack(&self) -> (r: FieldRead)
        ensures
            r == self.spec_field(RA_I2C_MST_STATUS, MST_I2C_SLV1_NACK_BIT, 1),
    {
        self.field(RA_I2C_MST_STATUS, MST_I2C_SLV1_NACK_BIT, 1)
    }

    /// Get Slave 0 NACK status.
    /// Bit 0 of I2C_MST_STATUS (0x36).
    pub fn get_slave0_nack(&self) -> (r: FieldRead)
        ensures
            r == self.spec_field(RA_I2C_MST_STATUS, MST_I2C_SLV0_NACK_BIT, 1),
    {
        self.field(RA_I2C_MST_STATUS, MST_I2C_SLV0_NACK_BIT, 1)
    }

    /// Get interrupt logic level mode (0 = active-high, 1 = active-low).
    /// Bit 7 of INT_PIN_CFG (0x37).
    pub fn get_interrupt_mode(&self) -> (r: FieldRead)
        ensures
            r == self.spec_field(RA_INT_PIN_CFG, INTCFG_INT_LEVEL_BIT, 1),
    {
        self.field(RA_INT_PIN_CFG, INTCFG_INT_LEVEL_BIT, 1)
    }

    /// Set interrupt logic level mode (0 = active-high, 1 = active-low).
    /// Bit 7 of INT_PIN_CFG (0x37).
    pub fn set_interrupt_mode(&self, mode: u8) -> (w: FieldWrite)
        ensures
            w == self.spec_field(RA_INT_PIN_CFG, INTCFG_INT_LEVEL_BIT, 1).with_data(mode),
    {
        self.field(RA_INT_PIN_CFG, INTCFG_INT_LEVEL_BIT, 1).write(mode)
    }

    /// Get interrupt drive mode (0 = push-pull, 1 = open-drain).
    /// Bit 6 of INT_PIN_CFG (0x37).
    pub fn get_interrupt_drive(&self) -> (r: FieldRead)
        ensures
            r == self.spec_field(RA_INT_PIN_CFG, INTCFG_INT_OPEN_BIT, 1),
    {
        self.field(RA_INT_PIN_CFG, INTCFG_INT_OPEN_BIT, 1)
    }

    /// Set interrupt drive mode (false = push-pull, true = open-drain).
    /// Bit 6 of INT_PIN_CFG (0x37).
    pub fn set_interrupt_drive(&self, drive: bool) -> (w: FieldWrite)
        ensures
            w == self.spec_field(RA_INT_PIN_CFG, INTCFG_INT_OPEN_BIT, 1).with_data(spec_flag(drive)),
    {
        self.field(RA_INT_PIN_CFG, INTCFG_INT_OPEN_BIT, 1).write(flag(drive))
    }

    /// Get interrupt latch mode (0 = 50us pulse, 1 = latch until cleared).
    /// Bit 5 of INT_PIN_CFG (0x37).
    pub fn get_interrupt_latch(&self) -> (r: FieldRead)
        ensures
            r == self.spec_field(RA_INT_PIN_CFG, INTCFG_LATCH_INT_EN_BIT, 1),
    {
        self.field(RA_INT_PIN_CFG, INTCFG_LATCH_INT_EN_BIT, 1)
    }

    /// Set interrupt latch mode (0 = 50us pulse, 1 = latch until cleared).
    /// Bit 5 of INT_PIN_CFG (0x37).
    pub fn set_interrupt_latch(&self, latch: u8) -> (w: FieldWrite)
        ensures
            w == self.spec_field(RA_INT_PIN_CFG, INTCFG_LATCH_INT_EN_BIT, 1).with_data(latch),
    {
        self.field(RA_INT_PIN_CFG, INTCFG_LATCH_INT_EN_BIT, 1).write(latch)
    }

    /// Get interrupt latch clear mode (0 = status read only, 1 = any read).
    /// Bit 4 of INT_PIN_CFG (0x37).
    pub fn get_interrupt_latch_clear(&self) -> (r: FieldRead)
        ensures
            r == self.spec_field(RA_INT_PIN_CFG, INTCFG_INT_RD_CLEAR_BIT, 1),
    {
        self.field(RA_INT_PIN_CFG, INTCFG_INT_RD_CLEAR_BIT, 1)
    }

    /// Set interrupt latch clear mode (false = status read only, true = any read).
    /// Bit 4 of INT_PIN_CFG (0x37).
    pub fn set_interrupt_latch_clear(&self, clear: bool) -> (w: FieldWrite)
        ensures
            w == self.spec_field(RA_INT_PIN_CFG, INTCFG_INT_RD_CLEAR_BIT, 1).with_data(spec_flag(clear)),
    {
        self.field(RA_INT_PIN_CFG, INTCFG_INT_RD_CLEAR_BIT, 1).write(flag(clear))
    }

    /// Get FSYNC interrupt logic level mode.
    /// Bit 3 of INT_PIN_CFG (0x37).
    pub fn get_fsync_interrupt_level(&self) -> (r: FieldRead)
        ensures
            r == self.spec_field(RA_INT_PIN_CFG, INTCFG_FSYNC_INT_LEVEL_BIT, 1),
    {
        self.field(RA_INT_PIN_CFG, INTCFG_FSYNC_INT_LEVEL_BIT, 1)
    }

    /// Set FSYNC interrupt logic level mode.
    /// Bit 3 of INT_PIN_CFG (0x37).
    pub fn set_fsync_interrupt_level(&self, level: u8) -> (w: FieldWrite)
        ensures
            w == self.spec_field(RA_INT_PIN_CFG, INTCFG_FSYNC_INT_LEVEL_BIT, 1).with_data(level),
    {
        self.field(RA_INT_PIN_CFG, INTCFG_FSYNC_INT_LEVEL_BIT, 1).write(level)
    }

    /// Get FSYNC pin interrupt enabled setting.
    /// Bit 2 of INT_PIN_CFG (0x37).
    pub fn get_fsync_interrupt_enabled(&self) -> (r: FieldRead)
        ensures
            r == self.spec_field(RA_INT_PIN_CFG, INTCFG_FSYNC_INT_EN_BIT, 1),
    {
        self.field(RA_INT_PIN_CFG, INTCFG_FSYNC_INT_EN_BIT, 1)
    }

    /// Set FSYNC pin interrupt enabled setting.
    /// Bit 2 of INT_PIN_CFG (0x37).
    pub fn set_fsync_interrupt_enabled(&self, enabled: bool) -> (w: FieldWrite)
        ensures
            w == self.spec_field(RA_INT_PIN_CFG, INTCFG_FSYNC_INT_EN_BIT, 1).with_data(spec_flag(enabled)),
    {
        self.field(RA_INT_PIN_CFG, INTCFG_FSYNC_INT_EN_BIT, 1).write(flag(enabled))
    }

    /// Get I2C bypass enabled status.
    /// Bit 1 of INT_PIN_CFG (0x37).
    pub fn get_i2c_bypass_enabled(&self) -> (r: FieldRead)
        ensures
            r == self.spec_field(RA_INT_PIN_CFG, INTCFG_I2C_BYPASS_EN_BIT, 1),
    {
        self.field(RA_INT_PIN_CFG, INTCFG_I2C_BYPASS_EN_BIT, 1)
    }

    /// Set I2C bypass enabled status.
    /// Bit 1 of INT_PIN_CFG (0x37).
    pub fn set_i2c_bypass_enabled(&self, enabled: bool) -> (w: FieldWrite)
        ensures
            w == self.spec_field(RA_INT_PIN_CFG, INTCFG_I2C_BYPASS_EN_BIT, 1).with_data(spec_flag(enabled)),
    {
        self.field(RA_INT_PIN_CFG, INTCFG_I2C_BYPASS_EN_BIT, 1).write(flag(enabled))
    }

    /// Get reference clock output enabled status.
    /// Bit 0 of INT_PIN_CFG (0x37).
    pub fn get_clock_output_enabled(&self) -> (r: FieldRead)
        ensures
            r == self.spec_field(RA_INT_PIN_CFG, INTCFG_CLKOUT_EN_BIT, 1),
    {
        self.field(RA_INT_PIN_CFG, INTCFG_CLKOUT_EN_BIT, 1)
    }

    /// Set reference clock output enabled status.
    /// Bit 0 of INT_PIN_CFG (0x37).
    pub fn set_clock_output_enabled(&self, enabled: bool) -> (w: FieldWrite)
        ensures
            w == self.spec_field(RA_INT_PIN_CFG, INTCFG_CLKOUT_EN_BIT, 1).with_data(spec_flag(enabled)),
    {
        self.field(RA_INT_PIN_CFG, INTCFG_CLKOUT_EN_BIT, 1).write(flag(enabled))
    }

    /// Get full interrupt enabled status.
    /// The whole INT_ENABLE (0x38) register.
    pub fn get_int_enabled(&self) -> (r: FieldRead)
        ensures
            r == self.spec_register(RA_INT_ENABLE),
    {
        self.register(RA_INT_ENABLE)
    }

    /// Set full interrupt enabled status: the register byte for all interrupts, each bit
    /// 0 for disabled and 1 for enabled.
    /// The whole INT_ENABLE (0x38) register.
    pub fn set_int_enabled(&self, enabled: u8) -> (w: FieldWrite)
        ensures
            w == self.spec_register(RA_INT_ENABLE).with_data(enabled),
    {
        self.register(RA_INT_ENABLE).write(enabled)
    }

    /// Get Free Fall interrupt enabled status.
    /// Bit 7 of INT_ENABLE (0x38).
    pub fn get_int_freefall_enabled(&self) -> (r: FieldRead)
        ensures
            r == self.spec_field(RA_INT_ENABLE, INTERRUPT_FF_BIT, 1),
    {
        self.field(RA_INT_ENABLE, INTERRUPT_FF_BIT, 1)
    }

    /// Set Free Fall interrupt enabled status.
    /// Bit 7 of INT_ENABLE (0x38).
    pub fn set_int_freefall_enabled(&self, enabled: bool) -> (w: FieldWrite)
        ensures
            w == self.spec_field(RA_INT_ENABLE, INTERRUPT_FF_BIT, 1).with_data(spec_flag(enabled)),
    {
        self.field(RA_INT_ENABLE, INTERRUPT_FF_BIT, 1).write(flag(enabled))
    }

    /// Get Motion Detection interrupt enabled status.
    /// Bit 6 of INT_ENABLE (0x38).
    pub fn get_int_motion_enabled(&self) -> (r: FieldRead)
        ensures
            r == self.spec_field(RA_INT_ENABLE, INTERRUPT_MOT_BIT, 1),
    {
        self.field(RA_INT_ENABLE, INTERRUPT_MOT_BIT, 1)
    }

    /// Set Motion Detection interrupt enabled status.
    /// Bit 6 of INT_ENABLE (0x38).
    pub fn set_int_motion_enabled(&self, enabled: bool) -> (w: FieldWrite)
        ensures
            w == self.spec_field(RA_INT_ENABLE, INTERRUPT_MOT_BIT, 1).with_data(spec_flag(enabled)),
    {
        self.field(RA_INT_ENABLE, INTERRUPT_MOT_BIT, 1).write(flag(enabled))
    }

    /// Get Zero Motion Detection interrupt enabled status.
    /// Bit 5 of INT_ENABLE (0x38).
    pub fn get_int_zero_motion_enabled(&self) -> (r: FieldRead)
        ensures
            r == self.spec_field(RA_INT_ENABLE, INTERRUPT_ZMOT_BIT, 1),
    {
        self.field(RA_INT_ENABLE, INTERRUPT_ZMOT_BIT, 1)
    }

    /// Set Zero Motion Detection interrupt enabled status.
    /// Bit 5 of INT_ENABLE (0x38).
    pub fn set_int_zero_motion_enabled(&self, enabled: bool) -> (w: FieldWrite)
        ensures
            w == self.spec_field(RA_INT_ENABLE, INTERRUPT_ZMOT_BIT, 1).with_data(spec_flag(enabled)),
    {
        self.field(RA_INT_ENABLE, INTERRUPT_ZMOT_BIT, 1).write(flag(enabled))
    }

    /// Get FIFO Buffer Overflow interrupt enabled status.
    /// Bit 4 of INT_ENABLE (0x38).
    pub fn get_int_fifo_buffer_overflow_enabled(&self) -> (r: FieldRead)
        ensures
            r == self.spec_field(RA_INT_ENABLE, INTERRUPT_FIFO_OFLOW_BIT, 1),
    {
        self.field(RA_INT_ENABLE, INTERRUPT_FIFO_OFLOW_BIT, 1)
    }

    /// Set FIFO Buffer Overflow interrupt enabled status.
    /// Bit 4 of INT_ENABLE (0x38).
    pub fn set_int_fifo_buffer_overflow_enabled(&self, enabled: bool) -> (w: FieldWrite)
        ensures
            w == self.spec_field(RA_INT_ENABLE, INTERRUPT_FIFO_OFLOW_BIT, 1).with_data(spec_flag(enabled)),
    {
        self.field(RA_INT_ENABLE, INTERRUPT_FIFO_OFLOW_BIT, 1).write(flag(enabled))
    }

    /// Get I2C Master interrupt enabled status.
    /// Bit 3 of INT_ENABLE (0x38).
    pub fn get_int_i2c_master_enabled(&self) -> (r: FieldRead)
        ensures
            r == self.spec_field(RA_INT_ENABLE, INTERRUPT_I2C_MST_INT_BIT, 1),
    {
        self.field(RA_INT_ENABLE, INTERRUPT_I2C_MST_INT_BIT, 1)
    }

    /// Set I2C Master interrupt enabled status.
    /// Bit 3 of INT_ENABLE (0x38).
    pub fn set_int_i2c_master_enabled(&self, enabled: bool) -> (w: FieldWrite)
        ensures
            w == self.spec_field(RA_INT_ENABLE, INTERRUPT_I2C_MST_INT_BIT, 1).with_data(spec_flag(enabled)),
    {
        self.field(RA_INT_ENABLE, INTERRUPT_I2C_MST_INT_BIT, 1).write(flag(enabled))
    }

    /// Get Data Ready interrupt enabled status.
    /// Bit 0 of INT_ENABLE (0x38).
    pub fn get_int_data_ready_enabled(&self) -> (r: FieldRead)
        ensures
            r == self.spec_field(RA_INT_ENABLE, INTERRUPT_DATA_RDY_BIT, 1),
    {
        self.field(RA_INT_ENABLE, INTERRUPT_DATA_RDY_BIT, 1)
    }

    /// Set Data Ready interrupt enabled status.
    /// Bit 0 of INT_ENABLE (0x38).
    pub fn set_int_data_ready_enabled(&self, enabled: bool) -> (w: FieldWrite)
        ensures
            w == self.spec_field(RA_INT_ENABLE, INTERRUPT_DATA_RDY_BIT, 1).with_data(spec_flag(enabled)),
    {
        self.field(RA_INT_ENABLE, INTERRUPT_DATA_RDY_BIT, 1).write(flag(enabled))
    }

    /// Get full set of interrupt status bits.
    /// The whole INT_STATUS (0x3A) register.
    pub fn get_int_status(&self) -> (r: FieldRead)
        ensures
            r == self.spec_register(RA_INT_STATUS),
    {
        self.register(RA_INT_STATUS)
    }

    /// Get Free Fall interrupt status.
    /// Bit 7 of INT_STATUS (0x3A).
    pub fn get_int_freefall_status(&self) -> (r: FieldRead)
        ensures
            r == self.spec_field(RA_INT_STATUS, INTERRUPT_FF_BIT, 1),
    {
        self.field(RA_INT_STATUS, INTERRUPT_FF_BIT, 1)
    }

    /// Get Motion Detection interrupt status.
    /// Bit 6 of INT_STATUS (0x3A).
    pub fn get_int_motion_status(&self) -> (r: FieldRead)
        ensures
            r == self.spec_field(RA_INT_STATUS, INTERRUPT_MOT_BIT, 1),
    {
        self.field(RA_INT_STATUS, INTERRUPT_MOT_BIT, 1)
    }

    /// Get Zero Motion Detection interrupt status.
    /// Bit 5 of INT_STATUS (0x3A).
    pub fn get_int_zero_motion_status(&self) -> (r: FieldRead)
        ensures
            r == self.spec_field(RA_INT_STATUS, INTERRUPT_ZMOT_BIT, 1),
    {
        self.field(RA_INT_STATUS, INTERRUPT_ZMOT_BIT, 1)
    }

    /// Get FIFO Buffer Overflow interrupt status.
    /// Bit 4 of INT_STATUS (0x3A).
    pub fn get_int_fifo_buffer_overflow_status(&self) -> (r: FieldRead)
        ensures
            r == self.spec_field(RA_INT_STATUS, INTERRUPT_FIFO_OFLOW_BIT, 1),
    {
        self.field(RA_INT_STATUS, INTERRUPT_FIFO_OFLOW_BIT, 1)
    }

    /// Get I2C Master interrupt status.
    /// Bit 3 of INT_STATUS (0x3A).
    pub fn get_int_i2c_master_status(&self) -> (r: FieldRead)
        ensures
            r == self.spec_field(RA_INT_STATUS, INTERRUPT_I2C_MST_INT_BIT, 1),
    {
        self.field(RA_INT_STATUS, INTERRUPT_I2C_MST_INT_BIT, 1)
    }

    /// Get Data Ready interrupt status.
    /// Bit 0 of INT_STATUS (0x3A).
    pub fn get_int_data_ready_status(&self) -> (r: FieldRead)
        ensures
            r == self.spec_field(RA_INT_STATUS, INTERRUPT_DATA_RDY_BIT, 1),
    {
        self.field(RA_INT_STATUS, INTERRUPT_DATA_RDY_BIT, 1)
    }

    /// Get X-axis negative motion detection interrupt status.
    /// Bit 7 of MOT_DETECT_STATUS (0x61).
    pub fn get_x_neg_motion_detected(&self) -> (r: FieldRead)
        ensures
            r == self.spec_field(RA_MOT_DETECT_STATUS, MOTION_MOT_XNEG_BIT, 1),
    {
        self.field(RA_MOT_DETECT_STATUS, MOTION_MOT_XNEG_BIT, 1)
    }

    /// Get X-axis positive motion detection interrupt status.
    /// Bit 6 of MOT_DETECT_STATUS (0x61).
    pub fn get_x_pos_motion_detected(&self) -> (r: FieldRead)
        ensures
            r == self.spec_field(RA_MOT_DETECT_STATUS, MOTION_MOT_XPOS_BIT, 1),
    {
        self.field(RA_MOT_DETECT_STATUS, MOTION_MOT_XPOS_BIT, 1)
    }

    /// Get Y-axis negative motion detection interrupt status.
    /// Bit 5 of MOT_DETECT_STATUS (0x61).
    pub fn get_y_neg_motion_detected(&self) -> (r: FieldRead)
        ensures
            r == self.spec_field(RA_MOT_DETECT_STATUS, MOTION_MOT_YNEG_BIT, 1),
    {
        self.field(RA_MOT_DETECT_STATUS, MOTION_MOT_YNEG_BIT, 1)
    }

    /// Get Y-axis positive motion detection interrupt status.
    /// Bit 4 of MOT_DETECT_STATUS (0x61).
    pub fn get_y_pos_motion_detected(&self) -> (r: FieldRead)
        ensures
            r == self.spec_field(RA_MOT_DETECT_STATUS, MOTION_MOT_YPOS_BIT, 1),
    {
        self.field(RA_MOT_DETECT_STATUS, MOTION_MOT_YPOS_BIT, 1)
    }

    /// Get Z-axis negative motion detection interrupt status.
    /// Bit 3 of MOT_DETECT_STATUS (0x61).
    pub fn get_z_neg_motion_detected(&self) -> (r: FieldRead)
        ensures
            r == self.spec_field(RA_MOT_DETECT_STATUS, MOTION_MOT_ZNEG_BIT, 1),
    {
        self.field(RA_MOT_DETECT_STATUS, MOTION_MOT_ZNEG_BIT, 1)
    }

    /// Get Z-axis positive motion detection interrupt status.
    /// Bit 2 of MOT_DETECT_STATUS (0x61).
    pub fn get_z_pos_motion_detected(&self) -> (r: FieldRead)
        ensures
            r == self.spec_field(RA_MOT_DETECT_STATUS, MOTION_MOT_ZPOS_BIT, 1),
    {
        self.field(RA_MOT_DETECT_STATUS, MOTION_MOT_ZPOS_BIT, 1)
    }

    /// Get zero motion detection interrupt status.
    /// Bit 0 of MOT_DETECT_STATUS (0x61).
    pub fn get_zero_motion_detected(&self) -> (r: FieldRead)
        ensures
            r == self.spec_field(RA_MOT_DETECT_STATUS, MOTION_MOT_ZRMOT_BIT, 1),
    {
        self.field(RA_MOT_DETECT_STATUS, MOTION_MOT_ZRMOT_BIT, 1)
    }

    /// Get external data shadow delay enabled status.
    /// Bit 7 of I2C_MST_DELAY_CTRL (0x67).
    pub fn get_external_shadow_delay_enabled(&self) -> (r: FieldRead)
        ensures
            r == self.spec_field(RA_I2C_MST_DELAY_CTRL, DELAYCTRL_DELAY_ES_SHADOW_BIT, 1),
    {
        self.field(RA_I2C_MST_DELAY_CTRL, DELAYCTRL_DELAY_ES_SHADOW_BIT, 1)
    }

    /// Set external data shadow delay enabled status.
    /// Bit 7 of I2C_MST_DELAY_CTRL (0x67).
    pub fn set_external_shadow_delay_enabled(&self, enabled: bool) -> (w: FieldWrite)
        ensures
            w == self.spec_field(RA_I2C_MST_DELAY_CTRL, DELAYCTRL_DELAY_ES_SHADOW_BIT, 1).with_data(spec_flag(enabled)),
    {
        self.field(RA_I2C_MST_DELAY_CTRL, DELAYCTRL_DELAY_ES_SHADOW_BIT, 1).write(flag(enabled))
    }

    /// Reset gyroscope signal path.
    /// Bit 2 of SIGNAL_PATH_RESET (0x68).
    pub fn reset_gyroscope_path(&self) -> (w: FieldWrite)
        ensures
            w == self.spec_field(RA_SIGNAL_PATH_RESET, PATHRESET_GYRO_RESET_BIT, 1).with_data(1),
    {
        self.field(RA_SIGNAL_PATH_RESET, PATHRESET_GYRO_RESET_BIT, 1).write(1)
    }

    /// Reset accelerometer signal path.
    /// Bit 1 of SIGNAL_PATH_RESET (0x68).
    pub fn reset_accelerometer_path(&self) -> (w: FieldWrite)
        ensures
            w == self.spec_field(RA_SIGNAL_PATH_RESET, PATHRESET_ACCEL_RESET_BIT, 1).with_data(1),
    {
        self.field(RA_SIGNAL_PATH_RESET, PATHRESET_ACCEL_RESET_BIT, 1).write(1)
    }

    /// Reset temperature sensor signal path.
    /// Bit 0 of SIGNAL_PATH_RESET (0x68).
    pub fn reset_temperature_path(&self) -> (w: FieldWrite)
        ensures
            w == self.spec_field(RA_SIGNAL_PATH_RESET, PATHRESET_TEMP_RESET_BIT, 1).with_data(1),
    {
        self.field(RA_SIGNAL_PATH_RESET, PATHRESET_TEMP_RESET_BIT, 1).write(1)
    }

    /// Get accelerometer power-on delay.
    /// Bits 5..4 of MOT_DETECT_CTRL (0x69).
    pub fn get_accelerometer_power_on_delay(&self) -> (r: FieldRead)
        ensures
            r == self.spec_field(RA_MOT_DETECT_CTRL, DETECT_ACCEL_ON_DELAY_BIT, DETECT_ACCEL_ON_DELAY_LENGTH),
    {
        self.field(RA_MOT_DETECT_CTRL, DETECT_ACCEL_ON_DELAY_BIT, DETECT_ACCEL_ON_DELAY_LENGTH)
    }

    /// Get Free Fall detection counter decrement configuration.
    /// Bits 3..2 of MOT_DETECT_CTRL (0x69).
    pub fn get_freefall_detection_counter_decrement(&self) -> (r: FieldRead)
        ensures
            r == self.spec_field(RA_MOT_DETECT_CTRL, DETECT_FF_COUNT_BIT, DETECT_FF_COUNT_LENGTH),
    {
        self.field(RA_MOT_DETECT_CTRL, DETECT_FF_COUNT_BIT, DETECT_FF_COUNT_LENGTH)
    }

    /// Get Motion detection counter decrement configuration.
    /// Bits 1..0 of MOT_DETECT_CTRL (0x69).
    pub fn get_motion_detection_counter_decrement(&self) -> (r: FieldRead)
        ensures
            r == self.spec_field(RA_MOT_DETECT_CTRL, DETECT_MOT_COUNT_BIT, DETECT_MOT_COUNT_LENGTH),
    {
        self.field(RA_MOT_DETECT_CTRL, DETECT_MOT_COUNT_BIT, DETECT_MOT_COUNT_LENGTH)
    }

    /// Get FIFO enabled status.
    /// Bit 6 of USER_CTRL (0x6A).
    pub fn get_fifo_enabled(&self) -> (r: FieldRead)
        ensures
            r == self.spec_field(RA_USER_CTRL, USERCTRL_FIFO_EN_BIT, 1),
    {
        self.field(RA_USER_CTRL, USERCTRL_FIFO_EN_BIT, 1)
    }

    /// Set FIFO enabled status.
    /// Bit 6 of USER_CTRL (0x6A).
    pub fn set_fifo_enabled(&self, enabled: bool) -> (w: FieldWrite)
        ensures
            w == self.spec_field(RA_USER_CTRL, USERCTRL_FIFO_EN_BIT, 1).with_data(spec_flag(enabled)),
    {
        self.field(RA_USER_CTRL, USERCTRL_FIFO_EN_BIT, 1).write(flag(enabled))
    }

    /// Get I2C Master Mode enabled status.
    /// Bit 5 of USER_CTRL (0x6A).
    pub fn get_i2c_master_mode_enabled(&self) -> (r: FieldRead)
        ensures
            r == self.spec_field(RA_USER_CTRL, USERCTRL_I2C_MST_EN_BIT, 1),
    {
        self.field(RA_USER_CTRL, USERCTRL_I2C_MST_EN_BIT, 1)
    }

    /// Set I2C Master Mode enabled status.
    /// Bit 5 of USER_CTRL (0x6A).
    pub fn set_i2c_master_mode_enabled(&self, enabled: bool) -> (w: FieldWrite)
        ensures
            w == self.spec_field(RA_USER_CTRL, USERCTRL_I2C_MST_EN_BIT, 1).with_data(spec_flag(enabled)),
    {
        self.field(RA_USER_CTRL, USERCTRL_I2C_MST_EN_BIT, 1).write(flag(enabled))
    }

    /// Switch from I2C to SPI mode (MPU-6000 only).
    /// Bit 4 of USER_CTRL (0x6A).
    pub fn switch_spi_enabled(&self, enabled: bool) -> (w: FieldWrite)
        ensures
            w == self.spec_field(RA_USER_CTRL, USERCTRL_I2C_IF_DIS_BIT, 1).with_data(spec_flag(enabled)),
    {
        self.field(RA_USER_CTRL, USERCTRL_I2C_IF_DIS_BIT, 1).write(flag(enabled))
    }

    /// Reset the FIFO.
    /// Bit 2 of USER_CTRL (0x6A).
    pub fn reset_fifo(&self) -> (w: FieldWrite)
        ensures
            w == self.spec_field(RA_USER_CTRL, USERCTRL_FIFO_RESET_BIT, 1).with_data(1),
    {
        self.field(RA_USER_CTRL, USERCTRL_FIFO_RESET_BIT, 1).write(1)
    }

    /// Reset the I2C Master.
    /// Bit 1 of USER_CTRL (0x6A).
    pub fn reset_i2c_master(&self) -> (w: FieldWrite)
        ensures
            w == self.spec_field(RA_USER_CTRL, USERCTRL_I2C_MST_RESET_BIT, 1).with_data(1),
    {
        self.field(RA_USER_CTRL, USERCTRL_I2C_MST_RESET_BIT, 1).write(1)
    }

    /// Reset all sensor registers and signal paths.
    /// Bit 0 of USER_CTRL (0x6A).
    pub fn reset_sensors(&self) -> (w: FieldWrite)
        ensures
            w == self.spec_field(RA_USER_CTRL, USERCTRL_SIG_COND_RESET_BIT, 1).with_data(1),
    {
        self.field(RA_USER_CTRL, USERCTRL_SIG_COND_RESET_BIT, 1).write(1)
    }

    /// Trigger a full device reset.
    /// Bit 7 of PWR_MGMT_1 (0x6B).
    pub fn reset(&self) -> (w: FieldWrite)
        ensures
            w == self.spec_field(RA_PWR_MGMT_1, PWR1_DEVICE_RESET_BIT, 1).with_data(1),
    {
        self.field(RA_PWR_MGMT_1, PWR1_DEVICE_RESET_BIT, 1).write(1)
    }

    /// Get sleep mode status.
    /// Bit 6 of PWR_MGMT_1 (0x6B).
    pub fn get_sleep_enabled(&self) -> (r: FieldRead)
        ensures
            r == self.spec_field(RA_PWR_MGMT_1, PWR1_SLEEP_BIT, 1),
    {
        self.field(RA_PWR_MGMT_1, PWR1_SLEEP_BIT, 1)
    }

    /// Set sleep mode status.
    /// Bit 6 of PWR_MGMT_1 (0x6B).
    pub fn set_sleep_enabled(&self, enabled: bool) -> (w: FieldWrite)
        ensures
            w == self.spec_field(RA_PWR_MGMT_1, PWR1_SLEEP_BIT, 1).with_data(spec_flag(enabled)),
    {
        self.field(RA_PWR_MGMT_1, PWR1_SLEEP_BIT, 1).write(flag(enabled))
    }

    /// Get wake cycle enabled status.
    /// Bit 5 of PWR_MGMT_1 (0x6B).
    pub fn get_wake_cycle_enabled(&self) -> (r: FieldRead)
        ensures
            r == self.spec_field(RA_PWR_MGMT_1, PWR1_CYCLE_BIT, 1),
    {
        self.field(RA_PWR_MGMT_1, PWR1_CYCLE_BIT, 1)
    }

    /// Set wake cycle enabled status.
    /// Bit 5 of PWR_MGMT_1 (0x6B).
    pub fn set_wake_cycle_enabled(&self, enabled: bool) -> (w: FieldWrite)
        ensures
            w == self.spec_field(RA_PWR_MGMT_1, PWR1_CYCLE_BIT, 1).with_data(spec_flag(enabled)),
    {
        self.field(RA_PWR_MGMT_1, PWR1_CYCLE_BIT, 1).write(flag(enabled))
    }

    /// Get temperature sensor enabled status: 1 when enabled. The register holds the
    /// *disabled* flag, bit 3 (TEMP_DIS) of PWR_MGMT_1 (0x6B), which the read decodes negated.
    pub fn get_temp_sensor_enabled(&self) -> (r: InvertedBitRead)
        ensures
            r == (InvertedBitRead { field: self.spec_field(RA_PWR_MGMT_1, PWR1_TEMP_DIS_BIT, 1) }),
    {
        InvertedBitRead { field: self.field(RA_PWR_MGMT_1, PWR1_TEMP_DIS_BIT, 1) }
    }

    /// Set temperature sensor enabled status.
    /// Bit 3 of PWR_MGMT_1 (0x6B).
    pub fn set_temp_sensor_enabled(&self, enabled: bool) -> (w: FieldWrite)
        ensures
            w == self.spec_field(RA_PWR_MGMT_1, PWR1_TEMP_DIS_BIT, 1).with_data(spec_flag(!enabled)),
    {
        self.field(RA_PWR_MGMT_1, PWR1_TEMP_DIS_BIT, 1).write(flag(!enabled))
    }

    /// Get clock source setting.
    /// Bits 2..0 of PWR_MGMT_1 (0x6B).
    pub fn get_clock_source(&self) -> (r: FieldRead)
        ensures
            r == self.spec_field(RA_PWR_MGMT_1, PWR1_CLKSEL_BIT, PWR1_CLKSEL_LENGTH),
    {
        self.field(RA_PWR_MGMT_1, PWR1_CLKSEL_BIT, PWR1_CLKSEL_LENGTH)
    }

    /// Set clock source setting.
    /// Bits 2..0 of PWR_MGMT_1 (0x6B).
    pub fn set_clock_source(&self, source: u8) -> (w: FieldWrite)
        ensures
            w == self.spec_field(RA_PWR_MGMT_1, PWR1_CLKSEL_BIT, PWR1_CLKSEL_LENGTH).with_data(source),
    {
        self.field(RA_PWR_MGMT_1, PWR1_CLKSEL_BIT, PWR1_CLKSEL_LENGTH).write(source)
    }

    /// Get wake frequency in Accel-Only Low Power Mode.
    /// Bits 7..6 of PWR_MGMT_2 (0x6C).
    pub fn get_wake_frequency(&self) -> (r: FieldRead)
        ensures
            r == self.spec_field(RA_PWR_MGMT_2, PWR2_LP_WAKE_CTRL_BIT, PWR2_LP_WAKE_CTRL_LENGTH),
    {
        self.field(RA_PWR_MGMT_2, PWR2_LP_WAKE_CTRL_BIT, PWR2_LP_WAKE_CTRL_LENGTH)
    }

    /// Set wake frequency in Accel-Only Low Power Mode.
    /// Bits 7..6 of PWR_MGMT_2 (0x6C).
    pub fn set_wake_frequency(&self, frequency: u8) -> (w: FieldWrite)
        ensures
            w == self.spec_field(RA_PWR_MGMT_2, PWR2_LP_WAKE_CTRL_BIT, PWR2_LP_WAKE_CTRL_LENGTH).with_data(frequency),
    {
        self.field(RA_PWR_MGMT_2, PWR2_LP_WAKE_CTRL_BIT, PWR2_LP_WAKE_CTRL_LENGTH).write(frequency)
    }

    /// Get X-axis accelerometer standby enabled status.
    /// Bit 5 of PWR_MGMT_2 (0x6C).
    pub fn get_standby_x_accel_enabled(&self) -> (r: FieldRead)
        ensures
            r == self.spec_field(RA_PWR_MGMT_2, PWR2_STBY_XA_BIT, 1),
    {
        self.field(RA_PWR_MGMT_2, PWR2_STBY_XA_BIT, 1)
    }

    /// Set X-axis accelerometer standby enabled status.
    /// Bit 5 of PWR_MGMT_2 (0x6C).
    pub fn set_standby_x_accel_enabled(&self, enabled: u8) -> (w: FieldWrite)
        ensures
            w == self.spec_field(RA_PWR_MGMT_2, PWR2_STBY_XA_BIT, 1).with_data(enabled),
    {
        self.field(RA_PWR_MGMT_2, PWR2_STBY_XA_BIT, 1).write(enabled)
    }

    /// Get Y-axis accelerometer standby enabled status.
    /// Bit 4 of PWR_MGMT_2 (0x6C).
    pub fn get_standby_y_accel_enabled(&self) -> (r: FieldRead)
        ensures
            r == self.spec_field(RA_PWR_MGMT_2, PWR2_STBY_YA_BIT, 1),
    {
        self.field(RA_PWR_MGMT_2, PWR2_STBY_YA_BIT, 1)
    }

    /// Set Y-axis accelerometer standby enabled status.
    /// Bit 4 of PWR_MGMT_2 (0x6C).
    pub fn set_standby_y_accel_enabled(&self, enabled: u8) -> (w: FieldWrite)
        ensures
            w == self.spec_field(RA_PWR_MGMT_2, PWR2_STBY_YA_BIT, 1).with_data(enabled),
    {
        self.field(RA_PWR_MGMT_2, PWR2_STBY_YA_BIT, 1).write(enabled)
    }

    /// Get Z-axis accelerometer standby enabled status.
    /// Bit 3 of PWR_MGMT_2 (0x6C).
    pub fn get_standby_z_accel_enabled(&self) -> (r: FieldRead)
        ensures
            r == self.spec_field(RA_PWR_MGMT_2, PWR2_STBY_ZA_BIT, 1),
    {
        self.field(RA_PWR_MGMT_2, PWR2_STBY_ZA_BIT, 1)
    }

    /// Set Z-axis accelerometer standby enabled status.
    /// Bit 3 of PWR_MGMT_2 (0x6C).
    pub fn set_standby_z_accel_enabled(&self, enabled: u8) -> (w: FieldWrite)
        ensures
            w == self.spec_field(RA_PWR_MGMT_2, PWR2_STBY_ZA_BIT, 1).with_data(enabled),
    {
        self.field(RA_PWR_MGMT_2, PWR2_STBY_ZA_BIT, 1).write(enabled)
    }

    /// Get X-axis gyroscope standby enabled status.
    /// Bit 2 of PWR_MGMT_2 (0x6C).
    pub fn get_standby_x_gyro_enabled(&self) -> (r: FieldRead)
        ensures
            r == self.spec_field(RA_PWR_MGMT_2, PWR2_STBY_XG_BIT, 1),
    {
        self.field(RA_PWR_MGMT_2, PWR2_STBY_XG_BIT, 1)
    }

    /// Set X-axis gyroscope standby enabled status.
    /// Bit 2 of PWR_MGMT_2 (0x6C).
    pub fn set_standby_x_gyro_enabled(&self, enabled: u8) -> (w: FieldWrite)
        ensures
            w == self.spec_field(RA_PWR_MGMT_2, PWR2_STBY_XG_BIT, 1).with_data(enabled),
    {
        self.field(RA_PWR_MGMT_2, PWR2_STBY_XG_BIT, 1).write(enabled)
    }

    /// Get Y-axis gyroscope standby enabled status.
    /// Bit 1 of PWR_MGMT_2 (0x6C).
    pub fn get_standby_y_gyro_enabled(&self) -> (r: FieldRead)
        ensures
            r == self.spec_field(RA_PWR_MGMT_2, PWR2_STBY_YG_BIT, 1),
    {
        self.field(RA_PWR_MGMT_2, PWR2_STBY_YG_BIT, 1)
    }

    /// Set Y-axis gyroscope standby enabled status.
    /// Bit 1 of PWR_MGMT_2 (0x6C).
    pub fn set_standby_y_gyro_enabled(&self, enabled: u8) -> (w: FieldWrite)
        ensures
            w == self.spec_field(RA_PWR_MGMT_2, PWR2_STBY_YG_BIT, 1).with_data(enabled),
    {
        self.field(RA_PWR_MGMT_2, PWR2_STBY_YG_BIT, 1).write(enabled)
    }

    /// Get Z-axis gyroscope standby enabled status.
    /// Bit 0 of PWR_MGMT_2 (0x6C).
    pub fn get_standby_z_gyro_enabled(&self) -> (r: FieldRead)
        ensures
            r == self.spec_field(RA_PWR_MGMT_2, PWR2_STBY_ZG_BIT, 1),
    {
        self.field(RA_PWR_MGMT_2, PWR2_STBY_ZG_BIT, 1)
    }

    /// Set Z-axis gyroscope standby enabled status.
    /// Bit 0 of PWR_MGMT_2 (0x6C).
    pub fn set_standby_z_gyro_enabled(&self, enabled: u8) -> (w: FieldWrite)
        ensures
            w == self.spec_field(RA_PWR_MGMT_2, PWR2_STBY_ZG_BIT, 1).with_data(enabled),
    {
        self.field(RA_PWR_MGMT_2, PWR2_STBY_ZG_BIT, 1).write(enabled)
    }

    /// Get byte from FIFO buffer.
    /// The whole FIFO_R_W (0x74) register.
    pub fn get_fifo_byte(&self) -> (r: FieldRead)
        ensures
            r == self.spec_register(RA_FIFO_R_W),
    {
        self.register(RA_FIFO_R_W)
    }

    /// Write byte to FIFO buffer.
    /// The whole FIFO_R_W (0x74) register.
    pub fn set_fifo_byte(&self, data: u8) -> (w: FieldWrite)
        ensures
            w == self.spec_register(RA_FIFO_R_W).with_data(data),
    {
        self.register(RA_FIFO_R_W).write(data)
    }

    /// Get Device ID.
    /// The whole WHO_AM_I (0x75) register.
    pub fn get_device_id(&self) -> (r: FieldRead)
        ensures
            r == self.spec_register(RA_WHO_AM_I),
    {
        self.register(RA_WHO_AM_I)
    }

    /// Set Device ID.
    /// The whole WHO_AM_I (0x75) register.
    pub fn set_device_id(&self, id: u8) -> (w: FieldWrite)
        ensures
            w == self.spec_register(RA_WHO_AM_I).with_data(id),
    {
        self.register(RA_WHO_AM_I).write(id)
    }

    /// Get the OTP bank valid flag.
    /// Bit 0 of XG_OFFS_TC (0x00).
    pub fn get_otp_bank_valid(&self) -> (r: FieldRead)
        ensures
            r == self.spec_field(RA_XG_OFFS_TC, TC_OTP_BNK_VLD_BIT, 1),
    {
        self.field(RA_XG_OFFS_TC, TC_OTP_BNK_VLD_BIT, 1)
    }

    /// Set the OTP bank valid flag.
    /// Bit 0 of XG_OFFS_TC (0x00).
    pub fn set_otp_bank_valid(&self, enabled: u8) -> (w: FieldWrite)
        ensures
            w == self.spec_field(RA_XG_OFFS_TC, TC_OTP_BNK_VLD_BIT, 1).with_data(enabled),
    {
        self.field(RA_XG_OFFS_TC, TC_OTP_BNK_VLD_BIT, 1).write(enabled)
    }

    /// Get the X-axis gyroscope offset trim.
    /// Bits 6..1 of XG_OFFS_TC (0x00).
    pub fn get_x_gyro_offset(&self) -> (r: FieldRead)
        ensures
            r == self.spec_field(RA_XG_OFFS_TC, TC_OFFSET_BIT, TC_OFFSET_LENGTH),
    {
        self.field(RA_XG_OFFS_TC, TC_OFFSET_BIT, TC_OFFSET_LENGTH)
    }

    /// Set the X-axis gyroscope offset trim.
    /// Bits 6..1 of XG_OFFS_TC (0x00).
    pub fn set_x_gyro_offset(&self, offset: u8) -> (w: FieldWrite)
        ensures
            w == self.spec_field(RA_XG_OFFS_TC, TC_OFFSET_BIT, TC_OFFSET_LENGTH).with_data(offset),
    {
        self.field(RA_XG_OFFS_TC, TC_OFFSET_BIT, TC_OFFSET_LENGTH).write(offset)
    }

    /// Get the Y-axis gyroscope offset trim.
    /// Bits 6..1 of YG_OFFS_TC (0x01).
    pub fn get_y_gyro_offset(&self) -> (r: FieldRead)
        ensures
            r == self.spec_field(RA_YG_OFFS_TC, TC_OFFSET_BIT, TC_OFFSET_LENGTH),
    {
        self.field(RA_YG_OFFS_TC, TC_OFFSET_BIT, TC_OFFSET_LENGTH)
    }

    /// Set the Y-axis gyroscope offset trim.
    /// Bits 6..1 of YG_OFFS_TC (0x01).
    pub fn set_y_gyro_offset(&self, offset: u8) -> (w: FieldWrite)
        ensures
            w == self.spec_field(RA_YG_OFFS_TC, TC_OFFSET_BIT, TC_OFFSET_LENGTH).with_data(offset),
    {
        self.field(RA_YG_OFFS_TC, TC_OFFSET_BIT, TC_OFFSET_LENGTH).write(offset)
    }

    /// Get the Z-axis gyroscope offset trim.
    /// Bits 6..1 of ZG_OFFS_TC (0x02).
    pub fn get_z_gyro_offset(&self) -> (r: FieldRead)
        ensures
            r == self.spec_field(RA_ZG_OFFS_TC, TC_OFFSET_BIT, TC_OFFSET_LENGTH),
    {
        self.field(RA_ZG_OFFS_TC, TC_OFFSET_BIT, TC_OFFSET_LENGTH)
    }

    /// Set the Z-axis gyroscope offset trim.
    /// Bits 6..1 of ZG_OFFS_TC (0x02).
    pub fn set_z_gyro_offset(&self, offset: u8) -> (w: FieldWrite)
        ensures
            w == self.spec_field(RA_ZG_OFFS_TC, TC_OFFSET_BIT, TC_OFFSET_LENGTH).with_data(offset),
    {
        self.field(RA_ZG_OFFS_TC, TC_OFFSET_BIT, TC_OFFSET_LENGTH).write(offset)
    }

    /// Get the X-axis fine gain.
    /// The whole X_FINE_GAIN (0x03) register.
    pub fn get_x_fine_gain(&self) -> (r: FieldRead)
        ensures
            r == self.spec_register(RA_X_FINE_GAIN),
    {
        self.register(RA_X_FINE_GAIN)
    }

    /// Set the X-axis fine gain.
    /// The whole X_FINE_GAIN (0x03) register.
    pub fn set_x_fine_gain(&self, gain: u8) -> (w: FieldWrite)
        ensures
            w == self.spec_register(RA_X_FINE_GAIN).with_data(gain),
    {
        self.register(RA_X_FINE_GAIN).write(gain)
    }

    /// Get the Y-axis fine gain.
    /// The whole Y_FINE_GAIN (0x04) register.
    pub fn get_y_fine_gain(&self) -> (r: FieldRead)
        ensures
            r == self.spec_register(RA_Y_FINE_GAIN),
    {
        self.register(RA_Y_FINE_GAIN)
    }

    /// Set the Y-axis fine gain.
    /// The whole Y_FINE_GAIN (0x04) register.
    pub fn set_y_fine_gain(&self, gain: u8) -> (w: FieldWrite)
        ensures
            w == self.spec_register(RA_Y_FINE_GAIN).with_data(gain),
    {
        self.register(RA_Y_FINE_GAIN).write(gain)
    }

    /// Get the Z-axis fine gain.
    /// The whole Z_FINE_GAIN (0x05) register.
    pub fn get_z_fine_gain(&self) -> (r: FieldRead)
        ensures
            r == self.spec_register(RA_Z_FINE_GAIN),
    {
        self.register(RA_Z_FINE_GAIN)
    }

    /// Set the Z-axis fine gain.
    /// The whole Z_FINE_GAIN (0x05) register.
    pub fn set_z_fine_gain(&self, gain: u8) -> (w: FieldWrite)
        ensures
            w == self.spec_register(RA_Z_FINE_GAIN).with_data(gain),
    {
        self.register(RA_Z_FINE_GAIN).write(gain)
    }

    /// Set the X-axis accelerometer offset.
    /// A word written at XA_OFFS_H (0x06).
    pub fn set_x_accel_offset(&self, offset: u16) -> (w: WordWrite)
        ensures
            w == (WordWrite { dev_address: self.dev_address, reg: RA_XA_OFFS_H, data: offset }),
    {
        WordWrite { dev_address: self.dev_address, reg: RA_XA_OFFS_H, data: offset }
    }

    /// Set the Y-axis accelerometer offset.
    /// A word written at YA_OFFS_H (0x08).
    pub fn set_y_accel_offset(&self, offset: u16) -> (w: WordWrite)
        ensures
            w == (WordWrite { dev_address: self.dev_address, reg: RA_YA_OFFS_H, data: offset }),
    {
        WordWrite { dev_address: self.dev_address, reg: RA_YA_OFFS_H, data: offset }
    }

    /// Set the Z-axis accelerometer offset.
    /// A word written at ZA_OFFS_H (0x0A).
    pub fn set_z_accel_offset(&self, offset: u16) -> (w: WordWrite)
        ensures
            w == (WordWrite { dev_address: self.dev_address, reg: RA_ZA_OFFS_H, data: offset }),
    {
        WordWrite { dev_address: self.dev_address, reg: RA_ZA_OFFS_H, data: offset }
    }

    /// Set the X-axis gyroscope user offset.
    /// A word written at XG_OFFS_USRH (0x13).
    pub fn set_x_gyro_offset_user(&self, offset: u16) -> (w: WordWrite)
        ensures
            w == (WordWrite { dev_address: self.dev_address, reg: RA_XG_OFFS_USRH, data: offset }),
    {
        WordWrite { dev_address: self.dev_address, reg: RA_XG_OFFS_USRH, data: offset }
    }

    /// Set the Y-axis gyroscope user offset.
    /// A word written at YG_OFFS_USRH (0x15).
    pub fn set_y_gyro_offset_user(&self, offset: u16) -> (w: WordWrite)
        ensures
            w == (WordWrite { dev_address: self.dev_address, reg: RA_YG_OFFS_USRH, data: offset }),
    {
        WordWrite { dev_address: self.dev_address, reg: RA_YG_OFFS_USRH, data: offset }
    }

    /// Set the Z-axis gyroscope user offset.
    /// A word written at ZG_OFFS_USRH (0x17).
    pub fn set_z_gyro_offset_user(&self, offset: u16) -> (w: WordWrite)
        ensures
            w == (WordWrite { dev_address: self.dev_address, reg: RA_ZG_OFFS_USRH, data: offset }),
    {
        WordWrite { dev_address: self.dev_address, reg: RA_ZG_OFFS_USRH, data: offset }
    }

    /// Get PLL Ready interrupt enabled status.
    /// Bit 2 of INT_ENABLE (0x38).
    pub fn get_int_pll_ready_enabled(&self) -> (r: FieldRead)
        ensures
            r == self.spec_field(RA_INT_ENABLE, INTERRUPT_PLL_RDY_INT_BIT, 1),
    {
        self.field(RA_INT_ENABLE, INTERRUPT_PLL_RDY_INT_BIT, 1)
    }

    /// Set PLL Ready interrupt enabled status.
    /// Bit 2 of INT_ENABLE (0x38).
    pub fn set_int_pll_ready_enabled(&self, enabled: u8) -> (w: FieldWrite)
        ensures
            w == self.spec_field(RA_INT_ENABLE, INTERRUPT_PLL_RDY_INT_BIT, 1).with_data(enabled),
    {
        self.field(RA_INT_ENABLE, INTERRUPT_PLL_RDY_INT_BIT, 1).write(enabled)
    }

    /// Get DMP interrupt enabled status.
    /// Bit 1 of INT_ENABLE (0x38).
    pub fn get_int_dmp_enabled(&self) -> (r: FieldRead)
        ensures
            r == self.spec_field(RA_INT_ENABLE, INTERRUPT_DMP_INT_BIT, 1),
    {
        self.field(RA_INT_ENABLE, INTERRUPT_DMP_INT_BIT, 1)
    }

    /// Set DMP interrupt enabled status.
    /// Bit 1 of INT_ENABLE (0x38).
    pub fn set_int_dmp_enabled(&self, enabled: u8) -> (w: FieldWrite)
        ensures
            w == self.spec_field(RA_INT_ENABLE, INTERRUPT_DMP_INT_BIT, 1).with_data(enabled),
    {
        self.field(RA_INT_ENABLE, INTERRUPT_DMP_INT_BIT, 1).write(enabled)
    }

    /// Get DMP interrupt 5 status.
    /// Bit 5 of DMP_INT_STATUS (0x39).
    pub fn get_dmp_int5_status(&self) -> (r: FieldRead)
        ensures
            r == self.spec_field(RA_DMP_INT_STATUS, DMPINT_5_BIT, 1),
    {
        self.field(RA_DMP_INT_STATUS, DMPINT_5_BIT, 1)
    }

    /// Get DMP interrupt 4 status.
    /// Bit 4 of DMP_INT_STATUS (0x39).
    pub fn get_dmp_int4_status(&self) -> (r: FieldRead)
        ensures
            r == self.spec_field(RA_DMP_INT_STATUS, DMPINT_4_BIT, 1),
    {
        self.field(RA_DMP_INT_STATUS, DMPINT_4_BIT, 1)
    }

    /// Get DMP interrupt 3 status.
    /// Bit 3 of DMP_INT_STATUS (0x39).
    pub fn get_dmp_int3_status(&self) -> (r: FieldRead)
        ensures
            r == self.spec_field(RA_DMP_INT_STATUS, DMPINT_3_BIT, 1),
    {
        self.field(RA_DMP_INT_STATUS, DMPINT_3_BIT, 1)
    }

    /// Get DMP interrupt 2 status.
    /// Bit 2 of DMP_INT_STATUS (0x39).
    pub fn get_dmp_int2_status(&self) -> (r: FieldRead)
        ensures
            r == self.spec_field(RA_DMP_INT_STATUS, DMPINT_2_BIT, 1),
    {
        self.field(RA_DMP_INT_STATUS, DMPINT_2_BIT, 1)
    }

    /// Get DMP interrupt 1 status.
    /// Bit 1 of DMP_INT_STATUS (0x39).
    pub fn get_dmp_int1_status(&self) -> (r: FieldRead)
        ensures
            r == self.spec_field(RA_DMP_INT_STATUS, DMPINT_1_BIT, 1),
    {
        self.field(RA_DMP_INT_STATUS, DMPINT_1_BIT, 1)
    }

    /// Get DMP interrupt 0 status.
    /// Bit 0 of DMP_INT_STATUS (0x39).
    pub fn get_dmp_int0_status(&self) -> (r: FieldRead)
        ensures
            r == self.spec_field(RA_DMP_INT_STATUS, DMPINT_0_BIT, 1),
    {
        self.field(RA_DMP_INT_STATUS, DMPINT_0_BIT, 1)
    }

    /// Get PLL Ready interrupt status.
    /// Bit 2 of INT_STATUS (0x3A).
    pub fn get_int_pll_ready_status(&self) -> (r: FieldRead)
        ensures
            r == self.spec_field(RA_INT_STATUS, INTERRUPT_PLL_RDY_INT_BIT, 1),
    {
        self.field(RA_INT_STATUS, INTERRUPT_PLL_RDY_INT_BIT, 1)
    }

    /// Get DMP interrupt status.
    /// Bit 1 of INT_STATUS (0x3A).
    pub fn get_int_dmp_status(&self) -> (r: FieldRead)
        ensures
            r == self.spec_field(RA_INT_STATUS, INTERRUPT_DMP_INT_BIT, 1),
    {
        self.field(RA_INT_STATUS, INTERRUPT_DMP_INT_BIT, 1)
    }

    /// Get DMP enabled status.
    /// Bit 7 of USER_CTRL (0x6A).
    pub fn get_dmp_enabled(&self) -> (r: FieldRead)
        ensures
            r == self.spec_field(RA_USER_CTRL, USERCTRL_DMP_EN_BIT, 1),
    {
        self.field(RA_USER_CTRL, USERCTRL_DMP_EN_BIT, 1)
    }

    /// Set DMP enabled status.
    /// Bit 7 of USER_CTRL (0x6A).
    pub fn set_dmp_enabled(&self, enabled: u8) -> (w: FieldWrite)
        ensures
            w == self.spec_field(RA_USER_CTRL, USERCTRL_DMP_EN_BIT, 1).with_data(enabled),
    {
        self.field(RA_USER_CTRL, USERCTRL_DMP_EN_BIT, 1).write(enabled)
    }

    /// Reset the DMP.
    /// Bit 3 of USER_CTRL (0x6A).
    pub fn reset_dmp(&self) -> (w: FieldWrite)
        ensures
            w == self.spec_field(RA_USER_CTRL, USERCTRL_DMP_RESET_BIT, 1).with_data(1),
    {
        self.field(RA_USER_CTRL, USERCTRL_DMP_RESET_BIT, 1).write(1)
    }

    /// Set the start address within the selected DMP memory bank.
    /// The whole MEM_START_ADDR (0x6E) register.
    pub fn set_memory_start_address(&self, address: u8) -> (w: FieldWrite)
        ensures
            w == self.spec_register(RA_MEM_START_ADDR).with_data(address),
    {
        self.register(RA_MEM_START_ADDR).write(address)
    }

    /// Read the DMP memory byte at the current address.
    /// The whole MEM_R_W (0x6F) register.
    pub fn read_memory_byte(&self) -> (r: FieldRead)
        ensures
            r == self.spec_register(RA_MEM_R_W),
    {
        self.register(RA_MEM_R_W)
    }

    /// Write the DMP memory byte at the current address.
    /// The whole MEM_R_W (0x6F) register.
    pub fn write_memory_byte(&self, data: u8) -> (w: FieldWrite)
        ensures
            w == self.spec_register(RA_MEM_R_W).with_data(data),
    {
        self.register(RA_MEM_R_W).write(data)
    }

    /// Get DMP configuration register 1.
    /// The whole DMP_CFG_1 (0x70) register.
    pub fn get_dmp_config1(&self) -> (r: FieldRead)
        ensures
            r == self.spec_register(RA_DMP_CFG_1),
    {
        self.register(RA_DMP_CFG_1)
    }

    /// Set DMP configuration register 1.
    /// The whole DMP_CFG_1 (0x70) register.
    pub fn set_dmp_config1(&self, config: u8) -> (w: FieldWrite)
        ensures
            w == self.spec_register(RA_DMP_CFG_1).with_data(config),
    {
        self.register(RA_DMP_CFG_1).write(config)
    }

    /// Get DMP configuration register 2.
    /// The whole DMP_CFG_2 (0x71) register.
    pub fn get_dmp_config2(&self) -> (r: FieldRead)
        ensures
            r == self.spec_register(RA_DMP_CFG_2),
    {
        self.register(RA_DMP_CFG_2)
    }

    /// Set DMP configuration register 2.
    /// The whole DMP_CFG_2 (0x71) register.
    pub fn set_dmp_config2(&self, config: u8) -> (w: FieldWrite)
        ensures
            w == self.spec_register(RA_DMP_CFG_2).with_data(config),
    {
        self.register(RA_DMP_CFG_2).write(config)
    }
}

/// The reads of the X-axis accelerometer output of the device at the default address: the
/// high byte (ACCEL_XOUT_H), then the low byte (ACCEL_XOUT_L), each read on its own; the
/// reading is `sensor::u16_from_bytes(high, low)`.
pub fn read_x_accelerometer() -> (r: (FieldRead, FieldRead))
    ensures
        r.0 == MPU9250::new_spec(DEFAULT_ADDRESS).spec_register(RA_ACCEL_XOUT_H),
        r.1 == MPU9250::new_spec(DEFAULT_ADDRESS).spec_register(RA_ACCEL_XOUT_L),
{
    let mpu = MPU9250::new(DEFAULT_ADDRESS);
    (mpu.register(RA_ACCEL_XOUT_H), mpu.register(RA_ACCEL_XOUT_L))
}

/// After `set_temp_sensor_enabled(enabled)`, `get_temp_sensor_enabled` reports `enabled`
/// (1 for true, 0 for false).
pub proof fn lemma_temp_sensor_round_trip(mpu: MPU9250, regs: Seq<u8>, enabled: bool)
    requires
        regs.len() == 256,
    ensures
        ({
            let w = mpu.spec_field(RA_PWR_MGMT_1, PWR1_TEMP_DIS_BIT, 1).with_data(spec_flag(!enabled));
            let r = InvertedBitRead { field: mpu.spec_field(RA_PWR_MGMT_1, PWR1_TEMP_DIS_BIT, 1) };
            r.spec_decode(spec_apply_write(regs, w)[RA_PWR_MGMT_1 as int]) == spec_flag(enabled)
        }),
{
    let w = mpu.spec_field(RA_PWR_MGMT_1, PWR1_TEMP_DIS_BIT, 1).with_data(spec_flag(!enabled));
    lemma_field_read_after_write(regs, w);
    assert(low_bits(0, 1) == 0 && low_bits(1, 1) == 1) by (bit_vector);
}

/// `set_fifo_mode` stores the lowest bit of `mode` as the FIFO mode and leaves the frame-sync
/// and low-pass filter settings of CONFIG as they were.
pub proof fn lemma_fifo_mode_keeps_other_config(mpu: MPU9250, regs: Seq<u8>, mode: u8)
    requires
        regs.len() == 256,
    ensures
        ({
            let w = mpu.spec_field(RA_CONFIG, CFG_FIFO_MODE_BIT, CFG_FIFO_MODE_LENGTH).with_data(mode);
            let after = spec_apply_write(regs, w);
            let sync = mpu.spec_field(RA_CONFIG, CFG_EXT_SYNC_SET_BIT, CFG_EXT_SYNC_SET_LENGTH);
            let dlpf = mpu.spec_field(RA_CONFIG, CFG_DLPF_CFG_BIT, CFG_DLPF_CFG_LENGTH);
            &&& spec_read_field(after, w.target()) == low_bits(mode, 1)
            &&& spec_read_field(after, sync) == spec_read_field(regs, sync)
            &&& spec_read_field(after, dlpf) == spec_read_field(regs, dlpf)
        }),
{
    let w = mpu.spec_field(RA_CONFIG, CFG_FIFO_MODE_BIT, CFG_FIFO_MODE_LENGTH).with_data(mode);
    lemma_field_read_after_write(regs, w);
    lemma_field_write_keeps_other_fields(
        regs,
        w,
        mpu.spec_field(RA_CONFIG, CFG_EXT_SYNC_SET_BIT, CFG_EXT_SYNC_SET_LENGTH),
    );
    lemma_field_write_keeps_other_fields(
        regs,
        w,
        mpu.spec_field(RA_CONFIG, CFG_DLPF_CFG_BIT, CFG_DLPF_CFG_LENGTH),
    );
}

/// `initialize` leaves the device clocked from the X gyroscope, with the gyroscope at
/// +/- 250 degrees/s, the accelerometer at +/- 2g, and out of sleep mode, whatever the
/// registers held before.
pub proof fn lemma_initialize_configures(mpu: MPU9250, regs: Seq<u8>)
    requires
        regs.len() == 256,
    ensures
        ({
            let after = spec_apply_writes(regs, mpu.spec_initialize());
            &&& spec_read_field(after, mpu.spec_field(RA_PWR_MGMT_1, PWR1_CLKSEL_BIT, PWR1_CLKSEL_LENGTH))
                == CLOCK_PLL_XGYRO
            &&& spec_read_field(after, mpu.spec_field(RA_GYRO_CONFIG, GCONFIG_FS_SEL_BIT, GCONFIG_FS_SEL_LENGTH))
                == GYRO_FS_250
            &&& spec_read_field(after, mpu.spec_field(RA_ACCEL_CONFIG, ACONFIG_AFS_SEL_BIT, ACONFIG_AFS_SEL_LENGTH))
                == ACCEL_FS_2
            &&& spec_read_field(after, mpu.spec_field(RA_PWR_MGMT_1, PWR1_SLEEP_BIT, 1)) == 0
        }),
{
    let ws = mpu.spec_initialize();
    let clock = mpu.spec_field(RA_PWR_MGMT_1, PWR1_CLKSEL_BIT, PWR1_CLKSEL_LENGTH);
    let gyro = mpu.spec_field(RA_GYRO_CONFIG, GCONFIG_FS_SEL_BIT, GCONFIG_FS_SEL_LENGTH);
    let accel = mpu.spec_field(RA_ACCEL_CONFIG, ACONFIG_AFS_SEL_BIT, ACONFIG_AFS_SEL_LENGTH);
    let sleep = mpu.spec_field(RA_PWR_MGMT_1, PWR1_SLEEP_BIT, 1);
    let r1 = spec_apply_write(regs, ws[0]);
    let r2 = spec_apply_write(r1, ws[1]);
    let r3 = spec_apply_write(r2, ws[2]);
    let r4 = spec_apply_write(r3, ws[3]);
    assert(ws.drop_first().drop_first().drop_first().drop_first().len() == 0);
    assert(spec_apply_writes(regs, ws) == r4) by {
        reveal_with_fuel(spec_apply_writes, 5);
        assert(ws.drop_first()[0] == ws[1]);
        assert(ws.drop_first().drop_first()[0] == ws[2]);
        assert(ws.drop_first().drop_first().drop_first()[0] == ws[3]);
    }
    assert(low_bits(1, 3) == 1 && low_bits(0, 2) == 0 && low_bits(0, 1) == 0) by (bit_vector);
    lemma_field_read_after_write(regs, ws[0]);
    lemma_field_write_keeps_other_fields(r1, ws[1], clock);
    lemma_field_write_keeps_other_fields(r2, ws[2], clock);
    lemma_field_write_keeps_other_fields(r3, ws[3], clock);
    lemma_field_read_after_write(r1, ws[1]);
    lemma_field_write_keeps_other_fields(r2, ws[2], gyro);
    lemma_field_write_keeps_other_fields(r3, ws[3], gyro);
    lemma_field_read_after_write(r2, ws[2]);
    lemma_field_write_keeps_other_fields(r3, ws[3], accel);
    lemma_field_read_after_write(r3, ws[3]);
}

/// The BANK_SEL value holds the bank number modulo 32 in its five low bits (so every bank below
/// 32 unchanged), the user-bank flag in bit 5, the prefetch flag in bit 6, and 0 in bit 7.
pub proof fn lemma_bank_value_fields(bank: u8, prefetch_enabled: bool, user_bank: bool)
    ensures
        ({
            let v = MPU9250::spec_bank_value(bank, prefetch_enabled, user_bank);
            &&& v & 0x1F == bank % 32
            &&& (v & 0x20 == 0x20) == user_bank
            &&& (v & 0x40 == 0x40) == prefetch_enabled
            &&& v & 0x80 == 0
        }),
        bank < 32 ==> MPU9250::spec_bank_value(bank, prefetch_enabled, user_bank) & 0x1F == bank,
{
    let u: u8 = if user_bank { 0x20u8 } else { 0u8 };
    let p: u8 = if prefetch_enabled { 0x40u8 } else { 0u8 };
    let v: u8 = (bank & 0x1F) | u | p;
    assert(v == MPU9250::spec_bank_value(bank, prefetch_enabled, user_bank));
    assert({
        &&& v & 0x1F == bank % 32
        &&& (v & 0x20 == 0x20) == (u == 0x20)
        &&& (v & 0x40 == 0x40) == (p == 0x40)
        &&& v & 0x80 == 0
    }) by (bit_vector)
        requires
            u == 0x20u8 || u == 0u8,
            p == 0x40u8 || p == 0u8,
            v == (bank & 0x1F) | u | p,
    ;
}

/// The control fields of slave `num` (0-3) lie in register I2C_SLV0_CTRL + 3 * num (0x27, 0x2A,
/// 0x2D, 0x30): two registers after that slave's address register and one after its register
/// number register. Any other slave number is refused.
pub proof fn lemma_slave_control_register(mpu: MPU9250, num: u8, bit_start: u8, length: u8)
    ensures
        num <= 3 ==> mpu.spec_slave_control(num, bit_start, length) == Ok::<FieldRead, Mpu9250Error>(
            FieldRead { dev_address: mpu.dev_address, reg: (0x27 + 3 * num) as u8, bit_start, length },
        ),
        num <= 3 ==> mpu.spec_slave_control(num, bit_start, length)->Ok_0.reg
            == mpu.spec_register((RA_I2C_SLV0_ADDR + num * 3) as u8).reg + 2,
        num <= 3 ==> mpu.spec_slave_control(num, bit_start, length)->Ok_0.reg
            == mpu.spec_register((RA_I2C_SLV0_REG + num * 3) as u8).reg + 1,
        num > 3 ==> mpu.spec_slave_control(num, bit_start, length) == Err::<FieldRead, Mpu9250Error>(
            Mpu9250Error::InvalidSlaveNumber,
        ),
        mpu.spec_slave_control(0, bit_start, length)->Ok_0.reg == 0x27,
        mpu.spec_slave_control(1, bit_start, length)->Ok_0.reg == 0x2A,
        mpu.spec_slave_control(2, bit_start, length)->Ok_0.reg == 0x2D,
        mpu.spec_slave_control(3, bit_start, length)->Ok_0.reg == 0x30,
{
}

} // verus!
