[package]
name = "sdm72_lib"
version = "0.1.0"
edition = "2021"
publish = false

[dependencies]
anyhow = "*"
clap = { version = "=4.6.7", features = ["derive"] }
clap-num = "=1.2.0"
clap-verbosity-flag = "=3.0.4"
dialoguer = "=0.12.0"
flexi_logger = "=0.31.10"
humantime = "*"
humantime-serde = "*"
log = "*"
paho-mqtt = { version = "=0.14.0", default-features = false }
rand = "=0.10.3"
serde = { version = "*", features = ["derive"] }
serde_json = "*"
serde_yaml = "*"
thiserror = "*"
tokio = { version = "=1.53.2", features = ["sync", "time"] }
tokio-modbus = { version = "=0.17.0", features = ["rtu-sync", "tcp-sync", "rtu", "tcp"] }
tokio-serial = "=5.5.0"
