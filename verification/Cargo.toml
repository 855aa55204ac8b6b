[package]
name = "drosix"
version = "0.1.0"
edition = "2021"
publish = false

[dependencies]
anyhow = "=1.0.104"
gilrs = "*"
linux-embedded-hal = "=0.3.2"
log = "=0.4.34"
mio = { version = "=1.2.4", features = ["os-poll", "os-ext"] }
mpu9250 = { version = "=0.25.0", features = ["dmp", "i2c"] }
prusst = "=1.0.0"
serde = { version = "=1.0.229", features = ["derive"] }
signal-hook = "=0.4.5"
thread-priority = "=3.1.1"
toml = "=1.1.7"
