[package]
name = "librefit_lib"
version = "0.1.0"
edition = "2021"
publish = false

[dependencies]
chrono = "=0.4.45"
csv = "=1.4.0"
zip = { version = "=2.6.1", default-features = false, features = ["deflate"] }
diesel = { version = "=2.3.14", features = ["sqlite", "r2d2", "returning_clauses_for_sqlite_3_35"] }
diesel_migrations = "=2.3.2"
dotenv = "=0.15.0"
log = "=0.4.34"
serde = { version = "=1.0.229", features = ["derive"] }
validator = { version = "=0.20.0", features = ["derive"] }
tauri = { version = "=2.12.5", default-features = false }
