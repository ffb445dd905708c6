[package]
name = "vinyldb"
version = "0.1.0"
edition = "2021"
publish = false

[dependencies]
sled = "*"
sqlparser = "*"
colored = "*"
comfy-table = "*"
rustyline = "*"

[dev-dependencies]
camino-tempfile = "*"
