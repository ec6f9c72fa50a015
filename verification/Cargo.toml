[package]
name = "quilt_installer"
version = "0.1.0"
edition = "2021"
publish = false

[dependencies]
anyhow = "=1.0.104"
clap = { version = "=4.6.7", default-features = false, features = ["std", "derive", "help", "usage", "error-context"] }
iced = { version = "=0.7.0", default-features = false, features = ["glow", "image"] }
image = "=0.24.9"
minreq = "=2.14.1"
native-dialog = "0.6"
serde = { version = "=1.0.229", features = ["derive"] }
serde_json = "=1.0.154"
sha1_smol = "=1.0.1"
