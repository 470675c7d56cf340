[package]
name = "rs_algo"
version = "0.1.0"
edition = "2021"
publish = false

[dependencies]
serde = { version = "=1.0.229", features = ["derive"] }
serde_json = "=1.0.154"
tokio = { version = "=1.54.1", features = ["rt-multi-thread", "macros", "net", "sync", "time"] }
tokio-tungstenite = "=0.24.0"
tungstenite = "=0.24.0"
futures = "=0.3.34"
futures-util = "=0.3.34"
futures-channel = "=0.3.34"
csv = "=1.4.0"
dotenv = "=0.15.0"
log = "=0.4.35"
env_logger = "=0.11.11"
tracing = "=0.1.44"
thiserror = "=2.0.21"
anyhow = "=1.0.104"
round = "=0.1.2"
rand = "=0.8.8"
async-trait = "=0.1.92"
dyn-clone = "=1.0.20"
bson = "=2.15.0"
mongodb = "=2.8.2"
chrono = "=0.4.45"
uuid = { version = "=1.29.0", features = ["v5"] }
