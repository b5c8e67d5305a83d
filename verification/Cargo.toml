[package]
name = "mpu9250_fifo"
version = "0.1.0"
edition = "2021"
publish = false

[dependencies]
image = { version = "=0.25.10", default-features = false, features = ["jpeg"] }
anyhow = "=1.0.104"
log = "=0.4.35"
i2c-linux = "=0.1.2"
byteorder = "=1.5.0"
cdr-encoding = "=0.11.0"
serde = { version = "=1.0.229", features = ["derive"] }
nalgebra = "=0.34.2"
ahrs = "=0.8.0"
tokio = { version = "=1.54.1", features = ["rt-multi-thread", "macros"] }
zenoh = { version = "=1.10.2", default-features = false, features = ["transport_tcp"] }
libcamera = "=0.7.0"
