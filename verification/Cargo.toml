[package]
name = "robostart"
version = "0.1.0"
edition = "2021"
publish = false

[dependencies]
regex = "1"
anyhow = "1"
clap = { version = "4", features = ["derive"] }
inquire = "0.7"
reqwest = { version = "0.12", default-features = false, features = ["rustls-tls"] }
tokio = { version = "1", features = ["macros", "rt-multi-thread"] }
zip = { version = "2", default-features = false, features = ["deflate"] }
copy_dir = "0.1"
syn = { version = "2", features = ["full"] }
quote = "1"
proc-macro2 = "1"
