[package]
name = "geopage"
version = "0.1.0"
edition = "2021"
publish = false

[dependencies]
chrono = "=0.4.45"
rocket = "0.5"
rocket_dyn_templates = { version = "0.2", features = ["tera"] }
structopt = "=0.3.26"
