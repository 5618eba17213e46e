[package]
name = "rzopfli"
version = "0.1.0"
edition = "2021"
publish = false

[dependencies]
anyhow = "*"
byte-unit = "*"
clap = { version = "*", features = ["derive"] }
clap_complete = "*"
clap_complete_nushell = "*"
log = "*"
simplelog = "*"
sysexits = "*"
zopfli = "*"

[dev-dependencies]
flate2 = "*"
