[package]
name = "talos_clusters"
version = "0.1.0"
edition = "2021"
publish = false

[dependencies]
actix-web = "4"
serde = { version = "1", features = ["derive"] }
serde_yaml = "0.9"
diesel = { version = "2", features = ["postgres", "r2d2"] }
r2d2 = "0.8"
