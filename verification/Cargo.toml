[package]
name = "rastro"
version = "0.1.0"
edition = "2021"
publish = false

[dependencies]
quick-xml = "=0.31.0"
log = "0.4"
pretty_env_logger = "0.5"
signal-hook = "0.3"
serde = { version = "1", features = ["derive"] }
toml = "0.8"
slog = "2"
slog-scope = "4"
url = "2"
dirs = "5"
csv = "1"
csv-async = "1"
flate2 = "1"
async-compression = { version = "0.4", features = ["tokio", "gzip"] }
async-trait = "0.1"
futures = "0.3"
tokio = { version = "1", features = ["fs", "io-util", "rt"] }
tokio-stream = "0.1"
tokio-util = { version = "0.7", features = ["compat", "io"] }
reqwest = { version = "0.11", default-features = false, features = ["stream"] }
ndarray = "0.15"
ndarray-stats = "0.5"
image = { version = "0.24", default-features = false, features = ["png"] }
plotters = { version = "0.3", default-features = false, features = ["bitmap_backend", "bitmap_encoder", "line_series"] }
rustronomy-fits = "*"
