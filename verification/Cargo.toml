[package]
name = "simulation"
version = "0.1.0"
edition = "2021"
publish = false

[dependencies]
anyhow = "=1.0.104"
clap = { version = "=4.6.7", features = ["derive"] }
serde = { version = "=1.0.229", features = ["derive"] }
serde_json = "=1.0.154"
tokio = { version = "=1.54.1", features = ["macros", "rt-multi-thread"] }

[dev-dependencies]
RustQuant = { version = "=0.0.33", default-features = false, features = ["seedable"] }
ethers-core = { version = "=2.0.14", default-features = false }
