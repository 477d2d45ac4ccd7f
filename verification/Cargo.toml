[package]
name = "mononoke_cmdlib"
version = "0.1.0"
edition = "2021"
publish = false

[dependencies]
clap = "2.34"
failure = "0.1.8"
slog = "2"
sloggers = "2"
slog_glog_fmt = "*"
uuid = { version = "1", features = ["v4"] }
futures = "0.1"
