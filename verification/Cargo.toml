[package]
name = "dicom_image"
version = "0.1.0"
edition = "2021"
publish = false

[dependencies]
jpeg-decoder = { version = "=0.3.2", default-features = false, features = ["platform_independent"] }
jpeg2000 = "=0.3.0"
dicom = "=0.3.0"
png = "=0.16.8"
iced = { version = "=0.1.1", features = ["image"] }
clipboard = "=0.5.0"
anyhow = "=1.0.104"
