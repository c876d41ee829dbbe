[package]
name = "tuningfork_pinn"
version = "0.1.0"
edition = "2021"
publish = false

[dependencies]
rand = "=0.8.8"
burn = { version = "=0.18.0", default-features = false, features = ["std", "autodiff", "ndarray"] }
clap = { version = "=4.5.61", features = ["derive"] }
