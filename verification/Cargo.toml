[package]
name = "dwarffi"
version = "0.1.0"
edition = "2021"
publish = false

[dependencies]
rustc-demangle = "*"
anyhow = "*"
gimli = "*"
object = "*"
log = "*"
stderrlog = "*"
structopt = "*"
paw = "*"
serde = { version = "*", features = ["derive"] }
serde_json = "*"
