[package]
name = "seal"
version = "0.1.0"
edition = "2021"
publish = false

[dependencies]
semver = "1"
similar = "2"
chrono = { version = "0.4", default-features = false, features = ["clock", "std"] }
toml = "*"
textwrap = "*"
itertools = "*"
serde = { version = "1", features = ["derive"] }
serde_json = "1"
clap = { version = "4", features = ["derive"] }
anstream = "*"
owo-colors = "*"
console = "*"
fs-err = "*"
glob = "0.3"
octocrab = "*"
tokio = { version = "1", features = ["rt", "macros"] }
tracing = "0.1"
tracing-subscriber = { version = "0.3", features = ["env-filter"] }
anyhow = "1"
thiserror = "*"
