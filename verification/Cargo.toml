[package]
name = "installer_core"
version = "0.1.0"
edition = "2021"
publish = false

[dependencies]
dirs = "*"
which = "*"
tokio = { version = "*", default-features = false, features = ["macros", "process", "rt", "time"] }
reqwest = { version = "*", default-features = false }
serde = { version = "*", features = ["derive"] }
thiserror = "*"
tracing = "*"
