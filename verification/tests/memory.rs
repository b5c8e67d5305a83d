use mpu9250_fifo::memory::{DmpConfigCommand, MemoryChunk};
use mpu9250_fifo::{Mpu9250Error, MPU9250};

#[test]
fn read_memory_block_splits_at_chunk_and_bank_boundaries() {
    let mpu9250 = MPU9250::new(0x68);
    let chunks = mpu9250.read_memory_block(40, 0, 0xF8);
    assert_eq!(
        chunks,
        vec![
            MemoryChunk { bank: 0, address: 0xF8, offset: 0, size: 8 },
            MemoryChunk { bank: 1, address: 0x00, offset: 8, size: 16 },
            MemoryChunk { bank: 1, address: 0x10, offset: 24, size: 16 },
        ]
    );
    assert!(mpu9250.read_memory_block(0, 3, 7).is_empty());
    assert_eq!(mpu9250.read_memory_block(5, 2, 0x10), vec![MemoryChunk { bank: 2, address: 0x10, offset: 0, size: 5 }]);
}

#[test]
fn block_ending_on_a_bank_boundary_stays_in_its_bank() {
    let mpu9250 = MPU9250::new(0x68);
    let chunks = mpu9250.read_memory_block(16, 255, 0xF0);
    assert_eq!(chunks, vec![MemoryChunk { bank: 255, address: 0xF0, offset: 0, size: 16 }]);
    assert!(MPU9250::memory_block_fits(16, 255, 0xF0));
    assert!(!MPU9250::memory_block_fits(17, 255, 0xF0));
    assert!(MPU9250::memory_block_fits(0, 255, 0xFF));
}

#[test]
fn write_memory_block_carries_the_bytes_of_each_chunk() {
    let mpu9250 = MPU9250::new(0x68);
    let data: Vec<u8> = (0..30).collect();
    let plan = mpu9250.write_memory_block(&data, 20, 0, 0xFC, true);
    assert!(plan.verify);
    assert_eq!(
        plan.chunks,
        vec![
            MemoryChunk { bank: 0, address: 0xFC, offset: 0, size: 4 },
            MemoryChunk { bank: 1, address: 0x00, offset: 4, size: 16 },
        ]
    );
    assert_eq!(plan.payloads[0], vec![0, 1, 2, 3]);
    assert_eq!(plan.payloads[1], (4..20).collect::<Vec<u8>>());
    let joined: Vec<u8> = plan.payloads.concat();
    assert_eq!(joined, data[..20].to_vec());
}

#[test]
fn verify_memory_chunk_fails_on_a_difference() {
    assert_eq!(MPU9250::verify_memory_chunk(&[1, 2, 3], &[1, 2, 3]), Ok(()));
    assert_eq!(MPU9250::verify_memory_chunk(&[1, 2, 3], &[1, 2, 4]), Err(Mpu9250Error::WriteVerifyFailed));
    assert_eq!(MPU9250::verify_memory_chunk(&[1, 2], &[1, 2, 3]), Err(Mpu9250Error::WriteVerifyFailed));
}

#[test]
fn dmp_configuration_set_is_a_string_of_blocks() {
    let mpu9250 = MPU9250::new(0x68);
    let data = [3u8, 0x10, 2, 0xAA, 0xBB, 0, 0, 0, 0x01, 7, 0xF0, 1, 0xCC];
    let plan = mpu9250.write_dmp_configuration_set(&data, data.len() as u16);
    assert_eq!(plan.outcome, Ok(()));
    assert_eq!(
        plan.commands,
        vec![
            DmpConfigCommand::WriteMemory { bank: 3, address: 0x10, data: vec![0xAA, 0xBB] },
            DmpConfigCommand::EnableDmpInterrupts,
            DmpConfigCommand::WriteMemory { bank: 7, address: 0xF0, data: vec![0xCC] },
        ]
    );
    // only the first `data_size` bytes count
    let plan = mpu9250.write_dmp_configuration_set(&data, 5);
    assert_eq!(plan.outcome, Ok(()));
    assert_eq!(plan.commands.len(), 1);
}

#[test]
fn dmp_configuration_set_stops_at_unknown_special_command() {
    let mpu9250 = MPU9250::new(0x68);
    let data = [0u8, 0, 0, 0x01, 0, 0, 0, 0x02, 1, 2, 1, 9];
    let plan = mpu9250.write_dmp_configuration_set(&data, data.len() as u16);
    assert_eq!(plan.commands, vec![DmpConfigCommand::EnableDmpInterrupts]);
    assert_eq!(plan.outcome, Err(Mpu9250Error::UnknownSpecialCommand));
}

#[test]
fn dmp_configuration_set_truncated_block() {
    let mpu9250 = MPU9250::new(0x68);
    let plan = mpu9250.write_dmp_configuration_set(&[1, 2, 5, 0, 0], 5);
    assert!(plan.commands.is_empty());
    assert_eq!(plan.outcome, Err(Mpu9250Error::ConfigurationTruncated));
    let plan = mpu9250.write_dmp_configuration_set(&[1, 2], 2);
    assert_eq!(plan.outcome, Err(Mpu9250Error::ConfigurationTruncated));
    let plan = mpu9250.write_dmp_configuration_set(&[], 0);
    assert!(plan.commands.is_empty());
    assert_eq!(plan.outcome, Ok(()));
}

#[test]
fn dmp_configuration_of_concatenated_sets() {
    let mpu9250 = MPU9250::new(0x68);
    let a = [1u8, 2, 1, 0xEE, 0, 0, 0, 0x01];
    let b = [4u8, 5, 2, 0x11, 0x22];
    let joined: Vec<u8> = a.iter().chain(b.iter()).copied().collect();
    let plan_a = mpu9250.write_dmp_configuration_set(&a, a.len() as u16);
    let plan_b = mpu9250.write_dmp_configuration_set(&b, b.len() as u16);
    let plan = mpu9250.write_dmp_configuration_set(&joined, joined.len() as u16);
    let mut expected = plan_a.commands;
    expected.extend(plan_b.commands);
    assert_eq!(plan.commands, expected);
    assert_eq!(plan.outcome, plan_b.outcome);
}
