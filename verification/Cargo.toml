[package]
name = "rust_graphql_todoapi"
version = "0.1.0"
edition = "2021"
publish = false

[dependencies]
actix-web = "4"
actix-cors = "*"
juniper = "*"
juniper_actix = "*"
diesel = { version = "2", features = ["sqlite", "returning_clauses_for_sqlite_3_35"] }
libsqlite3-sys = { version = "*", features = ["bundled"] }
dotenv = "*"
serde = { version = "*", features = ["derive"] }
