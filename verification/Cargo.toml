[package]
name = "rustaceans"
version = "0.1.0"
edition = "2021"
publish = false

[dependencies]
base64 = "0.22"
diesel = { version = "2", features = ["sqlite"] }
diesel_migrations = "2"
rocket = { version = "0.5", features = ["json"] }
rocket_sync_db_pools = { version = "0.1", features = ["diesel_sqlite_pool"] }
