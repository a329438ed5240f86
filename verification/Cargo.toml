[package]
name = "search_api_server"
version = "0.1.0"
edition = "2021"
publish = false

[dependencies]
chat-prompts = "=0.17.0"
clap = { version = "4", features = ["derive"] }
hyper = { version = "0.14", features = ["server", "http1", "tcp", "stream"] }
llama-core = { version = "=0.19.4", features = ["search"] }
log = "0.4"
mime_guess = "2.0"
once_cell = "1"
serde = { version = "1", features = ["derive"] }
serde_json = "1"
tokio = { version = "1", features = ["rt", "macros", "net", "io-util"] }
wasi-logger = "0.1"
