[package]
name = "children_group"
version = "0.1.0"
edition = "2021"
publish = false

[dependencies]
futures = { version = "=0.3.34", features = ["compat"] }
fxhash = "=0.2.1"
qutex = "=0.2.6"
