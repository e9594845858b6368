[package]
name = "has_my_alias_been_pwned"
version = "0.1.0"
edition = "2021"
publish = false

[dependencies]
async-trait = "0.1"
dotenv = "0.15"
log = "0.4"
log4rs = { version = "1", default-features = false, features = ["console_appender"] }
reqwest = { version = "0.12", features = ["json"] }
serde = { version = "1", features = ["derive"] }
tokio = { version = "1", features = ["macros", "rt-multi-thread", "time"] }
