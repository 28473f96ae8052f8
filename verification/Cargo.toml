[package]
name = "gnb_cu_cp"
version = "0.1.0"
edition = "2021"
publish = false

[dependencies]
anyhow = "1"
async-channel = "*"
async-net = "*"
async-std = "1"
async-trait = "0.1"
rand = "0.8"
slog = "2"
stop-token = "0.7"
uuid = "1"
