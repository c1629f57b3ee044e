[package]
name = "gc_roots"
version = "0.1.0"
edition = "2021"
publish = false

[dependencies]
slog = "*"
thiserror = "*"
serde = { version = "*", features = ["derive"] }
