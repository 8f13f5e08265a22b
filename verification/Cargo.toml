[package]
name = "ohos_ffrt"
version = "0.1.0"
edition = "2021"
publish = false

[dependencies]
ohos-ffrt-sys = "*"
napi-ohos = "*"
napi-derive-ohos = "*"
futures = "0.3"
libc = "0.2"
syn = { version = "2", features = ["full"] }
quote = "1"
proc-macro2 = "1"
