use mpu9250_fifo::calibrate::{calibrate_accelerometer, MagnetometerRange};
use mpu9250_fifo::{AccelerometerData, MagnetometerData};

#[test]
fn accelerometer_offset_z_up() {
    let samples = vec![
        AccelerometerData { x: 10, y: -7, z: 16400 },
        AccelerometerData { x: 11, y: -8, z: 16390 },
        AccelerometerData { x: 12, y: -8, z: 16395 },
    ];
    // means 11, -7 (-23/3 rounded toward zero), 16395; z less 1 g
    assert_eq!(calibrate_accelerometer(&samples), AccelerometerData { x: 11, y: -7, z: 10 });
}

#[test]
fn accelerometer_offset_z_down() {
    let samples = vec![AccelerometerData { x: -1, y: 0, z: -16380 }, AccelerometerData { x: 0, y: 0, z: -16380 }];
    assert_eq!(calibrate_accelerometer(&samples), AccelerometerData { x: 0, y: 0, z: 5 });
}

#[test]
fn accelerometer_offset_extremes() {
    let samples = vec![AccelerometerData { x: i16::MIN, y: i16::MAX, z: i16::MAX }; 4];
    assert_eq!(
        calibrate_accelerometer(&samples),
        AccelerometerData { x: i16::MIN, y: i16::MAX, z: i16::MAX - 16385 }
    );
}

#[test]
fn magnetometer_range_tracks_extremes_until_all_axes_done() {
    let mut range = MagnetometerRange::new();
    assert!(!range.update(MagnetometerData { x: 50, y: -60, z: 5 }, 40));
    assert!(!range.x_done && !range.y_done && !range.z_done);
    assert!(!range.update(MagnetometerData { x: -45, y: 70, z: -5 }, 40));
    assert!(range.x_done && range.y_done && !range.z_done);
    assert!(range.update(MagnetometerData { x: 0, y: 0, z: 41 }, 40) == false);
    assert!(range.update(MagnetometerData { x: 0, y: 0, z: -41 }, 40));
    assert_eq!(range.min, MagnetometerData { x: -45, y: -60, z: -41 });
    assert_eq!(range.max, MagnetometerData { x: 50, y: 70, z: 41 });
    assert_eq!(range.offset(), MagnetometerData { x: 2, y: 5, z: 0 });
}

#[test]
fn magnetometer_offset_rounds_toward_zero() {
    let mut range = MagnetometerRange::new();
    range.update(MagnetometerData { x: -7, y: 7, z: i16::MIN }, 0);
    assert_eq!(range.offset(), MagnetometerData { x: -3, y: 3, z: -16384 });
}
