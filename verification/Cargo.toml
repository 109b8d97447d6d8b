[package]
name = "vanilla_checkbox"
version = "0.1.0"
edition = "2021"
publish = false

[dependencies]
leptos = { version = "*", features = ["ssr"] }
leptos_router = { version = "*", features = ["ssr"] }
server_fn = "*"
serde = { version = "*", features = ["derive"] }
