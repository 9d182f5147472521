[package]
name = "herald"
version = "0.1.0"
edition = "2021"
publish = false

[dependencies]
url = "=2.5.8"
sha2 = "=0.10.9"
base64 = "=0.22.1"
rand = "=0.8.8"
serde = { version = "=1.0.229", features = ["derive"] }
serde_json = "=1.0.154"
toml = "=0.8.23"
dirs = "=5.0.1"
dotenvy = "=0.15.7"
clap = { version = "=4.6.7", features = ["derive"] }
crossterm = "=0.28.1"
ratatui = "=0.29.0"
tokio = { version = "=1.54.1", features = ["full"] }
reqwest = { version = "=0.12.28", features = ["json"] }
open = "=5.4.5"
tracing = "=0.1.44"
tracing-subscriber = { version = "=0.3.23", features = ["env-filter"] }
nucleo = "=0.5.0"
mail-builder = "=0.4.4"
bytes = "=1.12.1"
futures = "=0.3.34"
jmap-base-client = "=0.4.2"
jmap-mail-client = "=0.4.2"
jmap-contacts-client = "=0.4.2"
jmap-calendars-client = "=0.4.2"
jmap-contacts-types = "=0.4.2"
jmap-calendars-types = "=0.4.2"
jmap-types = "=0.4.2"
