[package]
name = "tudu"
version = "0.1.0"
edition = "2021"
publish = false

[dependencies]
chrono = { version = "0.4", features = ["serde"] }
clap = { version = "4", features = ["derive", "cargo"] }
colored = "3"
diesel = { version = "2", features = ["sqlite", "chrono", "returning_clauses_for_sqlite_3_35"] }
diesel_migrations = "2"
serde = { version = "1", features = ["derive"] }
url = "2"

[dev-dependencies]
regex = "1"
