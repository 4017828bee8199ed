[package]
name = "gitlab_xsearch"
version = "0.1.0"
edition = "2021"
publish = false

[dependencies]
clap = { version = "4", features = ["derive", "env"] }
comfy-table = "7"
csv = "1"
dotenvy = "0.15"
futures = "0.3"
indicatif = "*"
reqwest = { version = "0.12", features = ["json"] }
rust_xlsxwriter = "*"
serde = { version = "1", features = ["derive"] }
tokio = { version = "1", features = ["full"] }
