[package]
name = "aranet_cli"
version = "0.1.0"
edition = "2021"
publish = false

[dependencies]
owo-colors = "=4.4.0"
time = { version = "=0.3.55", features = ["local-offset", "formatting", "parsing", "macros"] }
indicatif = "=0.17.11"
terminal_size = "=0.4.4"
tabled = "=0.17.0"
serde_json = "=1.0.154"
dirs = "=5.0.1"
anyhow = "=1.0.104"
clap = { version = "=4.6.7", features = ["derive"] }
# The configuration file (app/config_file.rs) is read and written with toml,
# which needs serde's Serialize and Deserialize derives on its struct.
serde = { version = "=1.0.229", features = ["derive"] }
toml = "=0.8.23"
clap_complete = "=4.6.11"
