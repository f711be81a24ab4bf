[package]
name = "leptos_oidc"
version = "0.1.0"
edition = "2021"
publish = false

[dependencies]
chrono = { version = "=0.4.45", features = ["serde"] }
codee = { version = "=0.3.5", features = ["json_serde"] }
jsonwebtoken = { version = "=11.1.0", default-features = false, features = ["rust_crypto"] }
leptos = "=0.8.23"
leptos_router = "=0.8.17"
leptos-use = "=0.16.3"
oauth2 = { version = "=5.0.0", default-features = false, features = ["pkce-plain"] }
reqwest = { version = "=0.13.5", default-features = false, features = ["json"] }
serde = { version = "=1.0.229", features = ["derive"] }
serde_json = "=1.0.154"
thiserror = "=2.0.21"
tracing = "=0.1.44"
