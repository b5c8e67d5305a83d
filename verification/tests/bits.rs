use mpu9250_fifo::{read_bit, read_bits, write_bit, write_bits};

#[test]
fn read_bits_extracts_the_field() {
    // 01101001, bits 4..2 hold 010
    assert_eq!(read_bits(0b0110_1001, 4, 3), 0b010);
    assert_eq!(read_bits(0b0110_1001, 7, 8), 0b0110_1001);
    assert_eq!(read_bits(0b1000_0000, 7, 1), 1);
    assert_eq!(read_bit(0b0000_0100, 2), 1);
    assert_eq!(read_bit(0b1111_1011, 2), 0);
}

#[test]
fn write_bits_keeps_other_bits() {
    // 01101001 with 101 in bits 4..2 is 01110101
    assert_eq!(write_bits(0b0110_1001, 4, 3, 0b101), 0b0111_0101);
    assert_eq!(write_bits(0xAB, 7, 8, 0x12), 0x12);
    assert_eq!(write_bit(0b0000_0000, 6, 1), 0b0100_0000);
    assert_eq!(write_bit(0b1111_1111, 6, 0), 0b1011_1111);
}

#[test]
fn read_after_write_gives_the_value_cut_to_the_field() {
    for value in [0u8, 0x55, 0xAA, 0xFF] {
        for data in [0u8, 3, 0x1F, 0xFF] {
            let w = write_bits(value, 5, 3, data);
            assert_eq!(read_bits(w, 5, 3), data & 0b111);
            assert_eq!(w & !0b0011_1000, value & !0b0011_1000);
        }
    }
}

#[test]
fn last_write_wins_and_write_back_is_neutral() {
    let v = 0b1001_0110;
    assert_eq!(write_bits(write_bits(v, 3, 2, 1), 3, 2, 2), write_bits(v, 3, 2, 2));
    assert_eq!(write_bits(v, 3, 2, read_bits(v, 3, 2)), v);
}
