[package]
name = "demo_mover"
version = "0.1.0"
edition = "2021"
publish = false

[dependencies]
md5 = "*"
clap = { version = "*", features = ["derive"] }
demostf-client = "*"
main_error = "*"
secretfile = "*"
serde = { version = "*", features = ["derive"] }
thiserror = "*"
time = "*"
tokio = { version = "*", features = ["macros", "rt-multi-thread", "time"] }
toml = "*"
tracing = "*"
tracing-subscriber = "*"
