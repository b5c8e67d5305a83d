# mpu9250_fifo

Verified register-level logic of a driver for the InvenSense MPU-9250 inertial measurement
unit, with the Linux programs around it.

The library (`src/`) decides, for every operation of the device, which I2C device, register
and bits are read or written, and decodes what the device answers: each driver method returns
the bus requests (`bus::FieldRead`, `bus::FieldWrite`, block reads) and their decoders. The
bit-field arithmetic (`bits`), the sensor sample decoding (`sensor`), the DMP memory transfer
schedule and configuration-set parsing (`memory`), the calibration arithmetic (`calibrate`),
CDR message framing (`messages`) and camera frame encoding (`camera`) are verified with Verus.

`app/` performs the transfers on `/dev/i2c-1`, runs the IMU publisher (attitude filter,
zenoh), the interactive calibration and the camera recorder.
