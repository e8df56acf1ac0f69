[package]
name = "httpbox"
version = "0.1.0"
edition = "2021"
publish = false

[dependencies]
clap = "2"
log = "0.4"
log4rs = { version = "1", default-features = false, features = ["console_appender"] }
reqwest = { version = "0.12", default-features = false, features = ["blocking", "gzip"] }
