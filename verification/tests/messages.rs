use mpu9250_fifo::camera::{encode_frame, IMAGE_HEIGHT, IMAGE_WIDTH};
use mpu9250_fifo::messages::{cdr_le_message, CompressedImage, Header, Time};

#[test]
fn cdr_message_starts_with_the_encapsulation_header() {
    assert_eq!(cdr_le_message(&[9, 8, 7]), vec![0x00, 0x01, 0x00, 0x00, 9, 8, 7]);
    assert_eq!(cdr_le_message(&[]), vec![0x00, 0x01, 0x00, 0x00]);
}

#[test]
fn compressed_image_holds_its_parts() {
    let image = CompressedImage {
        header: Header { stamp: Time { sec: 1, nsec: 2 }, frame_id: String::from("camera_optical_frame") },
        format: String::from("jpeg"),
        data: vec![1, 2, 3],
    };
    assert_eq!(image.header.stamp, Time { sec: 1, nsec: 2 });
    assert_eq!(image.clone(), image);
}

#[test]
fn encode_frame_appends_a_jpeg_image() {
    let frame = vec![0x80u8; (IMAGE_WIDTH * IMAGE_HEIGHT * 3) as usize];
    let mut jpeg = vec![0xAAu8];
    assert!(encode_frame(&mut jpeg, &frame).is_ok());
    assert_eq!(jpeg[0], 0xAA);
    assert_eq!(&jpeg[1..3], &[0xFF, 0xD8]);
    assert_eq!(&jpeg[jpeg.len() - 2..], &[0xFF, 0xD9]);
    let first_len = jpeg.len();
    assert!(encode_frame(&mut jpeg, &frame).is_ok());
    assert_eq!(jpeg.len(), 2 * first_len - 1);
}
