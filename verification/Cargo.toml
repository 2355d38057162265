[package]
name = "webshop"
version = "0.1.0"
edition = "2021"
publish = false

[dependencies]
rust-crypto = "=0.2.36"
rocket = { version = "=0.5.2", features = ["secrets"] }
rocket_dyn_templates = { version = "=0.2.0", features = ["handlebars"] }
rocket_sync_db_pools = { version = "=0.1.0", features = ["diesel_postgres_pool"] }
diesel = "=2.3.14"
diesel_migrations = "=2.3.2"
fluent-templates = { version = "=0.9.4", features = ["handlebars"] }
