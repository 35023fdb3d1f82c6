[package]
name = "postboard"
version = "0.1.0"
edition = "2021"
publish = false

[dependencies]
bcrypt = "0.15"
chrono = "0.4"
comrak = { version = "0.18", default-features = false }
diesel = { version = "2", features = ["mysql", "chrono"] }
dotenvy = "0.15"
hex = "0.4"
rand = "0.8"
rocket = "0.5"
rocket_dyn_templates = { version = "*", features = ["handlebars"] }
serde = { version = "1", features = ["derive"] }
