[package]
name = "sensor_image"
version = "0.1.0"
edition = "2021"
publish = false

[dependencies]
anyhow = "=1.0.104"
arrow = { version = "=55.2.0", default-features = false }
byteorder = "=1.5.0"
cdr-encoding = "*"
mcap = "=0.23.4"
re_chunk = "=0.25.1"
re_log_types = "=0.25.1"
re_mcap_ros2 = "=0.25.0-alpha.1"
re_types = "=0.25.1"
