[package]
name = "slatedb_bindings"
version = "0.1.0"
edition = "2021"
publish = false

[dependencies]
slatedb = "=0.17.0"
tokio = { version = "=1.53.2", features = ["rt-multi-thread", "sync", "time"] }
object_store = { version = "=0.14.2", features = ["aws"] }
uuid = "=1.27.0"
url = "=2.5.8"
once_cell = "=1.21.4"
