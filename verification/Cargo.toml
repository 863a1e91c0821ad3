[package]
name = "lan_session"
version = "0.1.0"
edition = "2021"
publish = false

[dependencies]
anyhow = "1.0"
bytes = "1"
dbus = { version = "0.9", features = ["vendored"] }
dbus-crossroads = "0.5"
log = "0.4"
serde_json = "1.0"
sodiumoxide = "0.2"
tokio = { version = "1", default-features = false, features = ["macros", "rt", "sync", "time"] }
