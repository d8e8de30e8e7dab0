[package]
name = "miai"
version = "0.1.0"
edition = "2021"
publish = false

[dependencies]
base64ct = { version = "=1.8.3", features = ["alloc"] }
cookie_store = "=0.22.1"
md-5 = "=0.11.0"
rand = "=0.10.3"
reqwest = { version = "=0.13.5", default-features = false, features = ["cookies", "form"] }
reqwest_cookie_store = "=0.10.0"
serde_json = "=1.0.151"
sha1 = "=0.11.0"
tokio = { version = "=1.53.2", default-features = false, features = ["rt", "macros", "time"] }
