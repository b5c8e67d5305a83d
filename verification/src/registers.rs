//! Register addresses and bit positions of the MPU-9250 and of its magnetometer.
use vstd::prelude::*;

verus! {

/// I2C address with the AD0 pin low (GND).
pub const ADDRESS_AD0_LOW: u16 = 0x68;

/// I2C address with the AD0 pin high (VCC).
pub const ADDRESS_AD0_HIGH: u16 = 0x69;

/// The address of the device on the evaluation board.
pub const DEFAULT_ADDRESS: u16 = ADDRESS_AD0_LOW;

// Register addresses.

pub const RA_MAG_ADDRESS: u16 = 0x0C;
pub const RA_MAG_CTRL: u8 = 0x0A;
pub const RA_MAG_CTRL_SNGL_MSR: u8 = 0x01;
pub const RA_MAG_XOUT_L: u8 = 0x03;
pub const RA_MAG_XOUT_H: u8 = 0x04;
pub const RA_MAG_YOUT_L: u8 = 0x05;
pub const RA_MAG_YOUT_H: u8 = 0x06;
pub const RA_MAG_ZOUT_L: u8 = 0x07;
pub const RA_MAG_ZOUT_H: u8 = 0x08;
pub const RA_XG_OFFS_TC: u8 = 0x00;
pub const RA_YG_OFFS_TC: u8 = 0x01;
pub const RA_ZG_OFFS_TC: u8 = 0x02;
pub const RA_X_FINE_GAIN: u8 = 0x03;
pub const RA_Y_FINE_GAIN: u8 = 0x04;
pub const RA_Z_FINE_GAIN: u8 = 0x05;
pub const RA_XA_OFFS_H: u8 = 0x06;
pub const RA_XA_OFFS_L_TC: u8 = 0x07;
pub const RA_YA_OFFS_H: u8 = 0x08;
pub const RA_YA_OFFS_L_TC: u8 = 0x09;
pub const RA_ZA_OFFS_H: u8 = 0x0A;
pub const RA_ZA_OFFS_L_TC: u8 = 0x0B;
pub const RA_XG_OFFS_USRH: u8 = 0x13;
pub const RA_XG_OFFS_USRL: u8 = 0x14;
pub const RA_YG_OFFS_USRH: u8 = 0x15;
pub const RA_YG_OFFS_USRL: u8 = 0x16;
pub const RA_ZG_OFFS_USRH: u8 = 0x17;
pub const RA_ZG_OFFS_USRL: u8 = 0x18;
pub const RA_SMPLRT_DIV: u8 = 0x19;
pub const RA_CONFIG: u8 = 0x1A;
pub const RA_GYRO_CONFIG: u8 = 0x1B;
pub const RA_ACCEL_CONFIG: u8 = 0x1C;
pub const RA_FF_THR: u8 = 0x1D;
pub const RA_FF_DUR: u8 = 0x1E;
pub const RA_MOT_THR: u8 = 0x1F;
pub const RA_MOT_DUR: u8 = 0x20;
pub const RA_ZRMOT_THR: u8 = 0x21;
pub const RA_ZRMOT_DUR: u8 = 0x22;
pub const RA_FIFO_EN: u8 = 0x23;
pub const RA_I2C_MST_CTRL: u8 = 0x24;
pub const RA_I2C_SLV0_ADDR: u8 = 0x25;
pub const RA_I2C_SLV0_REG: u8 = 0x26;
pub const RA_I2C_SLV0_CTRL: u8 = 0x27;
pub const RA_I2C_SLV1_ADDR: u8 = 0x28;
pub const RA_I2C_SLV1_REG: u8 = 0x29;
pub const RA_I2C_SLV1_CTRL: u8 = 0x2A;
pub const RA_I2C_SLV2_ADDR: u8 = 0x2B;
pub const RA_I2C_SLV2_REG: u8 = 0x2C;
pub const RA_I2C_SLV2_CTRL: u8 = 0x2D;
pub const RA_I2C_SLV3_ADDR: u8 = 0x2E;
pub const RA_I2C_SLV3_REG: u8 = 0x2F;
pub const RA_I2C_SLV3_CTRL: u8 = 0x30;
pub const RA_I2C_SLV4_ADDR: u8 = 0x31;
pub const RA_I2C_SLV4_REG: u8 = 0x32;
pub const RA_I2C_SLV4_DO: u8 = 0x33;
pub const RA_I2C_SLV4_CTRL: u8 = 0x34;
pub const RA_I2C_SLV4_DI: u8 = 0x35;
pub const RA_I2C_MST_STATUS: u8 = 0x36;
pub const RA_INT_PIN_CFG: u8 = 0x37;
pub const RA_INT_ENABLE: u8 = 0x38;
pub const RA_DMP_INT_STATUS: u8 = 0x39;
pub const RA_INT_STATUS: u8 = 0x3A;
pub const RA_ACCEL_XOUT_H: u8 = 0x3B;
pub const RA_ACCEL_XOUT_L: u8 = 0x3C;
pub const RA_ACCEL_YOUT_H: u8 = 0x3D;
pub const RA_ACCEL_YOUT_L: u8 = 0x3E;
pub const RA_ACCEL_ZOUT_H: u8 = 0x3F;
pub const RA_ACCEL_ZOUT_L: u8 = 0x40;
pub const RA_TEMP_OUT_H: u8 = 0x41;
pub const RA_TEMP_OUT_L: u8 = 0x42;
pub const RA_GYRO_XOUT_H: u8 = 0x43;
pub const RA_GYRO_XOUT_L: u8 = 0x44;
pub const RA_GYRO_YOUT_H: u8 = 0x45;
pub const RA_GYRO_YOUT_L: u8 = 0x46;
pub const RA_GYRO_ZOUT_H: u8 = 0x47;
pub const RA_GYRO_ZOUT_L: u8 = 0x48;
pub const RA_EXT_SENS_DATA_00: u8 = 0x49;
pub const RA_EXT_SENS_DATA_01: u8 = 0x4A;
pub const RA_EXT_SENS_DATA_02: u8 = 0x4B;
pub const RA_EXT_SENS_DATA_03: u8 = 0x4C;
pub const RA_EXT_SENS_DATA_04: u8 = 0x4D;
pub const RA_EXT_SENS_DATA_05: u8 = 0x4E;
pub const RA_EXT_SENS_DATA_06: u8 = 0x4F;
pub const RA_EXT_SENS_DATA_07: u8 = 0x50;
pub const RA_EXT_SENS_DATA_08: u8 = 0x51;
pub const RA_EXT_SENS_DATA_09: u8 = 0x52;
pub const RA_EXT_SENS_DATA_10: u8 = 0x53;
pub const RA_EXT_SENS_DATA_11: u8 = 0x54;
pub const RA_EXT_SENS_DATA_12: u8 = 0x55;
pub const RA_EXT_SENS_DATA_13: u8 = 0x56;
pub const RA_EXT_SENS_DATA_14: u8 = 0x57;
pub const RA_EXT_SENS_DATA_15: u8 = 0x58;
pub const RA_EXT_SENS_DATA_16: u8 = 0x59;
pub const RA_EXT_SENS_DATA_17: u8 = 0x5A;
pub const RA_EXT_SENS_DATA_18: u8 = 0x5B;
pub const RA_EXT_SENS_DATA_19: u8 = 0x5C;
pub const RA_EXT_SENS_DATA_20: u8 = 0x5D;
pub const RA_EXT_SENS_DATA_21: u8 = 0x5E;
pub const RA_EXT_SENS_DATA_22: u8 = 0x5F;
pub const RA_EXT_SENS_DATA_23: u8 = 0x60;
pub const RA_MOT_DETECT_STATUS: u8 = 0x61;
pub const RA_I2C_SLV0_DO: u8 = 0x63;
pub const RA_I2C_SLV1_DO: u8 = 0x64;
pub const RA_I2C_SLV2_DO: u8 = 0x65;
pub const RA_I2C_SLV3_DO: u8 = 0x66;
pub const RA_I2C_MST_DELAY_CTRL: u8 = 0x67;
pub const RA_SIGNAL_PATH_RESET: u8 = 0x68;
pub const RA_MOT_DETECT_CTRL: u8 = 0x69;
pub const RA_USER_CTRL: u8 = 0x6A;
pub const RA_PWR_MGMT_1: u8 = 0x6B;
pub const RA_PWR_MGMT_2: u8 = 0x6C;
pub const RA_BANK_SEL: u8 = 0x6D;
pub const RA_MEM_START_ADDR: u8 = 0x6E;
pub const RA_MEM_R_W: u8 = 0x6F;
pub const RA_DMP_CFG_1: u8 = 0x70;
pub const RA_DMP_CFG_2: u8 = 0x71;
pub const RA_FIFO_COUNTH: u8 = 0x72;
pub const RA_FIFO_COUNTL: u8 = 0x73;
pub const RA_FIFO_R_W: u8 = 0x74;
pub const RA_WHO_AM_I: u8 = 0x75;

// Bit positions, field lengths and field values.

pub const TC_PWR_MODE_BIT: u8 = 7;
pub const TC_OFFSET_BIT: u8 = 6;
pub const TC_OFFSET_LENGTH: u8 = 6;
pub const TC_OTP_BNK_VLD_BIT: u8 = 0;
pub const CFG_EXT_SYNC_SET_BIT: u8 = 5;
pub const CFG_EXT_SYNC_SET_LENGTH: u8 = 3;
pub const CFG_FIFO_MODE_BIT: u8 = 6;
pub const CFG_FIFO_MODE_LENGTH: u8 = 1;
pub const CFG_DLPF_CFG_BIT: u8 = 2;
pub const CFG_DLPF_CFG_LENGTH: u8 = 3;
pub const GCONFIG_FS_SEL_BIT: u8 = 4;
pub const GCONFIG_FS_SEL_LENGTH: u8 = 2;
pub const GYRO_FS_250: u8 = 0x00;
pub const ACONFIG_XA_ST_BIT: u8 = 7;
pub const ACONFIG_YA_ST_BIT: u8 = 6;
pub const ACONFIG_ZA_ST_BIT: u8 = 5;
pub const ACONFIG_AFS_SEL_BIT: u8 = 4;
pub const ACONFIG_AFS_SEL_LENGTH: u8 = 2;
pub const ACONFIG_ACCEL_HPF_BIT: u8 = 2;
pub const ACONFIG_ACCEL_HPF_LENGTH: u8 = 3;
pub const ACCEL_FS_2: u8 = 0x00;
pub const TEMP_FIFO_EN_BIT: u8 = 7;
pub const XG_FIFO_EN_BIT: u8 = 6;
pub const YG_FIFO_EN_BIT: u8 = 5;
pub const ZG_FIFO_EN_BIT: u8 = 4;
pub const ACCEL_FIFO_EN_BIT: u8 = 3;
pub const SLV2_FIFO_EN_BIT: u8 = 2;
pub const SLV1_FIFO_EN_BIT: u8 = 1;
pub const SLV0_FIFO_EN_BIT: u8 = 0;
pub const MULT_MST_EN_BIT: u8 = 7;
pub const WAIT_FOR_ES_BIT: u8 = 6;
pub const SLV_3_FIFO_EN_BIT: u8 = 5;
pub const I2C_MST_P_NSR_BIT: u8 = 4;
pub const I2C_MST_CLK_BIT: u8 = 3;
pub const I2C_MST_CLK_LENGTH: u8 = 4;
pub const I2C_SLV_EN_BIT: u8 = 7;
pub const I2C_SLV_BYTE_SW_BIT: u8 = 6;
pub const I2C_SLV_REG_DIS_BIT: u8 = 5;
pub const I2C_SLV_GRP_BIT: u8 = 4;
pub const I2C_SLV_LEN_BIT: u8 = 3;
pub const I2C_SLV_LEN_LENGTH: u8 = 4;
pub const I2C_SLV4_EN_BIT: u8 = 7;
pub const I2C_SLV4_INT_EN_BIT: u8 = 6;
pub const I2C_SLV4_REG_DIS_BIT: u8 = 5;
pub const I2C_SLV4_MST_DLY_BIT: u8 = 4;
pub const I2C_SLV4_MST_DLY_LENGTH: u8 = 5;
pub const MST_PASS_THROUGH_BIT: u8 = 7;
pub const MST_I2C_SLV4_DONE_BIT: u8 = 6;
pub const MST_I2C_LOST_ARB_BIT: u8 = 5;
pub const MST_I2C_SLV4_NACK_BIT: u8 = 4;
pub const MST_I2C_SLV3_NACK_BIT: u8 = 3;
pub const MST_I2C_SLV2_NACK_BIT: u8 = 2;
pub const MST_I2C_SLV1_NACK_BIT: u8 = 1;
pub const MST_I2C_SLV0_NACK_BIT: u8 = 0;
pub const INTCFG_INT_LEVEL_BIT: u8 = 7;
pub const INTCFG_INT_OPEN_BIT: u8 = 6;
pub const INTCFG_LATCH_INT_EN_BIT: u8 = 5;
pub const INTCFG_INT_RD_CLEAR_BIT: u8 = 4;
pub const INTCFG_FSYNC_INT_LEVEL_BIT: u8 = 3;
pub const INTCFG_FSYNC_INT_EN_BIT: u8 = 2;
pub const INTCFG_I2C_BYPASS_EN_BIT: u8 = 1;
pub const INTCFG_CLKOUT_EN_BIT: u8 = 0;
pub const INTERRUPT_FF_BIT: u8 = 7;
pub const INTERRUPT_MOT_BIT: u8 = 6;
pub const INTERRUPT_ZMOT_BIT: u8 = 5;
pub const INTERRUPT_FIFO_OFLOW_BIT: u8 = 4;
pub const INTERRUPT_I2C_MST_INT_BIT: u8 = 3;
pub const INTERRUPT_PLL_RDY_INT_BIT: u8 = 2;
pub const INTERRUPT_DMP_INT_BIT: u8 = 1;
pub const INTERRUPT_DATA_RDY_BIT: u8 = 0;
pub const DMPINT_5_BIT: u8 = 5;
pub const DMPINT_4_BIT: u8 = 4;
pub const DMPINT_3_BIT: u8 = 3;
pub const DMPINT_2_BIT: u8 = 2;
pub const DMPINT_1_BIT: u8 = 1;
pub const DMPINT_0_BIT: u8 = 0;
pub const MOTION_MOT_XNEG_BIT: u8 = 7;
pub const MOTION_MOT_XPOS_BIT: u8 = 6;
pub const MOTION_MOT_YNEG_BIT: u8 = 5;
pub const MOTION_MOT_YPOS_BIT: u8 = 4;
pub const MOTION_MOT_ZNEG_BIT: u8 = 3;
pub const MOTION_MOT_ZPOS_BIT: u8 = 2;
pub const MOTION_MOT_ZRMOT_BIT: u8 = 0;
pub const DELAYCTRL_DELAY_ES_SHADOW_BIT: u8 = 7;
pub const PATHRESET_GYRO_RESET_BIT: u8 = 2;
pub const PATHRESET_ACCEL_RESET_BIT: u8 = 1;
pub const PATHRESET_TEMP_RESET_BIT: u8 = 0;
pub const DETECT_ACCEL_ON_DELAY_BIT: u8 = 5;
pub const DETECT_ACCEL_ON_DELAY_LENGTH: u8 = 2;
pub const DETECT_FF_COUNT_BIT: u8 = 3;
pub const DETECT_FF_COUNT_LENGTH: u8 = 2;
pub const DETECT_MOT_COUNT_BIT: u8 = 1;
pub const DETECT_MOT_COUNT_LENGTH: u8 = 2;
pub const USERCTRL_DMP_EN_BIT: u8 = 7;
pub const USERCTRL_FIFO_EN_BIT: u8 = 6;
pub const USERCTRL_I2C_MST_EN_BIT: u8 = 5;
pub const USERCTRL_I2C_IF_DIS_BIT: u8 = 4;
pub const USERCTRL_DMP_RESET_BIT: u8 = 3;
pub const USERCTRL_FIFO_RESET_BIT: u8 = 2;
pub const USERCTRL_I2C_MST_RESET_BIT: u8 = 1;
pub const USERCTRL_SIG_COND_RESET_BIT: u8 = 0;
pub const PWR1_DEVICE_RESET_BIT: u8 = 7;
pub const PWR1_SLEEP_BIT: u8 = 6;
pub const PWR1_CYCLE_BIT: u8 = 5;
pub const PWR1_TEMP_DIS_BIT: u8 = 3;
pub const PWR1_CLKSEL_BIT: u8 = 2;
pub const PWR1_CLKSEL_LENGTH: u8 = 3;
pub const CLOCK_PLL_XGYRO: u8 = 0x01;
pub const PWR2_LP_WAKE_CTRL_BIT: u8 = 7;
pub const PWR2_LP_WAKE_CTRL_LENGTH: u8 = 2;
pub const PWR2_STBY_XA_BIT: u8 = 5;
pub const PWR2_STBY_YA_BIT: u8 = 4;
pub const PWR2_STBY_ZA_BIT: u8 = 3;
pub const PWR2_STBY_XG_BIT: u8 = 2;
pub const PWR2_STBY_YG_BIT: u8 = 1;
pub const PWR2_STBY_ZG_BIT: u8 = 0;
pub const DMP_MEMORY_CHUNK_SIZE: u8 = 16;

} // verus!
