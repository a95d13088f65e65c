[package]
name = "ldap_authd"
version = "0.1.0"
edition = "2021"
publish = false

[dependencies]
base64 = "*"
ldap3 = { version = "*", default-features = false, features = ["sync"] }
tide = "*"
tokio = { version = "*", features = ["macros", "rt-multi-thread"] }
clap = { version = "*", features = ["derive"] }
anyhow = "*"
