[package]
name = "sitegen"
version = "0.1.0"
edition = "2021"
publish = false

[dependencies]
chrono = "0.4"
clap = { version = "4", features = ["derive"] }
env_logger = "*"
futures-util = "0.3"
glob = "0.3"
grass = "*"
handlebars = "*"
log = "0.4"
markdown = "*"
notify = "*"
notify-debouncer-mini = "*"
serde = { version = "1", features = ["derive"] }
tokio = { version = "1", features = ["full"] }
tokio-tungstenite = "*"
toml = "*"
tungstenite = "*"
