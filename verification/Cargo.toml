[package]
name = "attune"
version = "0.1.0"
edition = "2021"
publish = false

[dependencies]
hex = "=0.4.3"
md-5 = "=0.10.6"
sha1 = "=0.10.7"
sha2 = "=0.10.9"
percent-encoding = "=2.3.2"
tabwriter = "=1.4.1"
time = { version = "=0.3.55", features = ["formatting"] }
rand = "=0.9.5"
tabled = "=0.20.0"
uuid = { version = "=1.29.0", features = ["v4"] }
serde = { version = "=1.0.229", features = ["derive"] }
serde_json = "=1.0.154"
tokio = { version = "=1.54.1", features = ["rt-multi-thread", "macros", "time"] }
reqwest = { version = "=0.12.28", default-features = false, features = ["json", "multipart", "rustls-tls"] }
clap = { version = "=4.6.7", features = ["derive", "env"] }
tracing = "=0.1.44"
tracing-subscriber = { version = "0.3", features = ["env-filter"] }
color-eyre = "0.6"
colored = "3"
inquire = "0.7"
gpgme = "0.11"
backon = "1"
nonzero_ext = "0.3"
