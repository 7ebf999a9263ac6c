[package]
name = "mpris_presence"
version = "0.1.0"
edition = "2021"
publish = false

[dependencies]
regex = "=1.13.1"
mpris = "=2.1.0"
musicbrainz_rs = { version = "=0.14.0", features = ["sync"] }
discordipc = "=0.1.1"
tokio = { version = "=1.53.2", features = ["rt-multi-thread", "macros", "time"] }
dotenv = "=0.15.0"
