[package]
name = "denoiser"
version = "0.1.0"
edition = "2021"
publish = false

[dependencies]
dasp_ring_buffer = "*"
rustfft = "*"
serde = { version = "*", features = ["derive"] }
serde_json = "*"
thiserror = "*"
wav_io = "*"
rusqlite = "*"
