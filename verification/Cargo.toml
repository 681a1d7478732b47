[package]
name = "tg_gpt"
version = "0.1.0"
edition = "2021"
publish = false

[dependencies]
clap = { version = "=4.6.7", features = ["derive"] }
dotenvy = "=0.15.7"
env_logger = "=0.10.2"
futures-util = "=0.3.34"
log = "=0.4.34"
openai = "=1.1.1"
serde = { version = "=1.0.229", features = ["derive"] }
serde_json = "=1.0.154"
sqlx = { version = "=0.6.3", default-features = false, features = ["runtime-tokio-rustls", "sqlite"] }
# Not used directly. teloxide-core depends on takecell 0.1, and 0.1.2 asks for a
# newer compiler than this crate builds with, so it is held at 0.1.1.
takecell = "=0.1.1"
teloxide = { version = "=0.12.2", default-features = false, features = ["rustls"] }
tokio = { version = "=1.54.1", features = ["macros", "rt-multi-thread", "time"] }
