[package]
name = "cosmic-screenshot"
version = "0.1.0"
edition = "2021"
publish = false

[dependencies]
image = { version = "=0.25.10", default-features = false, features = ["png"] }
chrono = "=0.4.45"
zbus = { version = "=5.19.0", default-features = false, features = ["tokio"] }
ashpd = { version = "=0.13.13", default-features = false, features = ["tokio", "screenshot"] }
tokio = { version = "=1.54.1", features = ["rt", "macros", "time", "fs", "io-util", "signal", "sync"] }
clap = { version = "=4.6.7", features = ["derive"] }
dirs = "=7.0.0"
libc = "=0.2.191"
tempfile = "=3.27.0"
thiserror = "=2.0.21"
async-trait = "=0.1.92"
serde = { version = "=1.0.229", features = ["derive"] }
url = "=2.5.8"
