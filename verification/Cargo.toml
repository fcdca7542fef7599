[package]
name = "lua_runner"
version = "0.1.0"
edition = "2021"
publish = false

[dependencies]
mlua = { version = "*", features = ["luau", "send"] }
crossbeam = "*"
enigo = "*"
device_query = "*"
anyhow = "*"
