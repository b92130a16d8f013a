[package]
name = "lightpdf"
version = "0.1.0"
edition = "2021"
publish = false

[dependencies]
anyhow = "1"
dirs-next = "*"
env_logger = "*"
log = "0.4"
pdfium-render = "*"
serde = { version = "1", features = ["derive"] }
serde_json = "1"
thiserror = "*"
