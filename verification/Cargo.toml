[package]
name = "umd_booking"
version = "0.1.0"
edition = "2021"
publish = false
rust-version = "1.95"

[dependencies]
async-trait = "=0.1.92"
chrono = "=0.4.45"
csv = "=1.4.0"
deadpool-postgres = "=0.14.2"
dotenv = "=0.15.0"
log = "=0.4.34"
postgres-types = { version = "=0.2.14", features = ["derive", "with-chrono-0_4"] }
pretty_env_logger = "=0.5.0"
serde = { version = "=1.0.229", features = ["derive"] }
# Nothing here uses takecell itself: teloxide does, and the release after
# 0.1.1 asks for a newer compiler than the one this crate is built with.
takecell = "=0.1.1"
teloxide = { version = "=0.17.0", default-features = false, features = ["macros", "ctrlc_handler", "rustls"] }
thiserror = "=1.0.69"
tokio = { version = "=1.54.1", features = ["macros", "rt-multi-thread"] }
tokio-postgres = { version = "=0.7.18", features = ["with-chrono-0_4"] }
