[package]
name = "reaction_bot"
version = "0.1.0"
edition = "2021"
rust-version = "1.95"
publish = false

[dependencies]
regex = "=1.13.1"
serde_json = "=1.0.154"
tokio = { version = "=1.54.1", features = ["full"] }
log = "=0.4.34"
env_logger = "=0.10.2"
pretty_env_logger = "=0.5.0"
dotenv = "=0.15.0"
libloading = "=0.8.9"
anyhow = "=1.0.104"
teloxide = { version = "=0.12.2", default-features = false, features = ["macros", "ctrlc_handler", "rustls"] }
dptree = "=0.3.0"
# Not used directly. teloxide-core depends on takecell 0.1, and its 0.1.2
# asks for a newer compiler than the rust-version above; this line holds the
# last release that builds with it.
takecell = "=0.1.1"
