[package]
name = "audio_recorder_rs"
version = "0.1.0"
edition = "2021"
publish = false

[dependencies]
cpal = "0.15"
crossbeam-channel = "0.5"
dasp_sample = "0.11"
ringbuf = "0.4"
rubato = "0.15"
tracing = "0.1"
