[package]
name = "subgraph_store"
version = "0.1.0"
edition = "2021"
publish = false

[dependencies]
bigdecimal = "0.1"
diesel = { version = "1.4", features = ["postgres", "numeric"] }
serde = { version = "1", features = ["derive"] }
serde_json = "1"
web3 = { version = "*", default-features = false }
