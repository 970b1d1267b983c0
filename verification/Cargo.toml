[package]
name = "dicom_edit"
version = "0.1.0"
edition = "2021"
publish = false

[dependencies]
dicom-core = "*"
dicom-object = "*"
dicom-dictionary-std = "*"
dicom-encoding = "*"
dicom-parser = "*"
dicom-transfer-syntax-registry = "*"
serde = { version = "1", features = ["derive"] }
serde_json = "1"
wasm-bindgen = "0.2"
