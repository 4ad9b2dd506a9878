[package]
name = "archflow"
version = "0.1.0"
edition = "2021"
publish = false

[dependencies]
crc32fast = "1"
flate2 = "1"
bzip2 = "0.4"
xz2 = "0.1"
zstd = "0.13"
chrono = "0.4"
byteorder = "1"
async-compression = { version = "0.4", features = ["tokio", "deflate", "bzip2", "xz", "zstd"] }
tokio = { version = "1", features = ["io-util", "fs", "rt", "rt-multi-thread", "macros"] }
