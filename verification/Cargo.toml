[package]
name = "turso_sql_provider"
version = "0.1.0"
edition = "2021"
publish = false

[dependencies]
serde_json = "=1.0.154"
turso_core = { version = "=0.8.3", default-features = false, features = ["fs", "json", "time", "uuid", "pure-rust-crypto"] }
getrandom = "=0.3.4"
wit-bindgen = { version = "=0.57.1", features = ["macros", "realloc"] }
