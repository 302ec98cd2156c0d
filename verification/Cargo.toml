[package]
name = "sbzdeck"
version = "0.1.0"
edition = "2021"
publish = false

[dependencies]
indexmap = { version = "1", features = ["serde-1"] }
serde = { version = "1", features = ["derive"] }
serde_json = "1"
slog = "2"
futures = "0.3"
tokio = { version = "1", features = ["macros", "rt", "time", "sync"] }
streamdeck-rs = "*"
sbz-switch = "*"
yew = "0.6"
stdweb = "0.4"
