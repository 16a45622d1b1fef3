[package]
name = "emoji_selector"
version = "0.1.0"
edition = "2021"
publish = false

[dependencies]
emojis = "=0.9.1"
bitflags = { version = "=2.13.2", features = ["serde"] }
serde = { version = "1", features = ["derive"] }
serde_json = "1"
fluent-langneg = "=0.13.1"
i18n-embed = { version = "=0.14.1", features = ["fluent-system", "desktop-requester", "filesystem-assets"] }
