[package]
name = "vectoramp"
version = "0.4.0"
edition = "2021"
publish = false

[dependencies]
async-trait = "0.1"
bytes = "1"
futures-util = "0.3"
mime_guess = "2"
reqwest = { version = "0.12", default-features = false, features = ["json", "stream"] }
serde = { version = "1", features = ["derive"] }
serde_json = "1"
thiserror = "1"
tokio = { version = "1", features = ["fs"] }
url = "2"
urlencoding = "2"
