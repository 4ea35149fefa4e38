[package]
name = "mk_dl_bot"
version = "0.1.1"
edition = "2021"
publish = false
rust-version = "1.95"

[dependencies]
regex = "=1.13.1"
url = "=2.5.8"
serde = { version = "=1.0.229", features = ["derive"] }
serde_json = "=1.0.154"
ordered-float = "=5.5.1"
tokio = { version = "=1.54.1", features = ["macros", "rt-multi-thread", "process", "io-util", "fs"] }
tracing = "=0.1.44"
tracing-subscriber = "=0.3.23"
dotenv = "=0.15.0"
anyhow = "=1.0.104"
teloxide = { version = "=0.17.0", default-features = false, features = ["macros", "rustls", "ctrlc_handler"] }
sqlx = { version = "=0.9.0", default-features = false, features = ["postgres", "runtime-tokio", "macros", "migrate"] }
rust-i18n = "=4.2.4"
dptree = "=0.5.1"
# teloxide-core depends on takecell 0.1; its release 0.1.2 needs rustc 1.96, newer than the toolchain here.
takecell = ">=0.1, <0.1.2"
