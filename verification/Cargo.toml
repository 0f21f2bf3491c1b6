[package]
name = "ocpp_rpc"
version = "0.1.0"
edition = "2021"
publish = false

[dependencies]
serde_json = "=1.0.154"
warp = "=0.3.7"
futures = "=0.3.34"
log = "=0.4.34"
chrono = "=0.4.45"
rust-ocpp = { version = "=3.0.4", features = ["v2_0_1"] }
