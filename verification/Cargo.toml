[package]
name = "reservation"
version = "0.1.0"
edition = "2021"
publish = false

[dependencies]
chrono = { version = "=0.4.45", default-features = false, features = ["clock", "std"] }
prost-types = "=0.13.5"
sqlx = { version = "=0.8.6", default-features = false, features = ["postgres", "runtime-tokio", "chrono"] }
tokio = { version = "=1.54.1", features = ["rt", "sync"] }
futures = "=0.3.34"
async-trait = "=0.1.92"
tracing = "=0.1.44"
dotenvy = "=0.15.7"
