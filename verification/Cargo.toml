[package]
name = "gserver_manager"
version = "0.1.0"
edition = "2021"
publish = false

[dependencies]
console = "0.15"
ctrlc = "3"
rustyline = "9"
serde = { version = "1", features = ["derive"] }
serde_json = "1"
structopt = "0.3"
sysinfo = "0.20"
termion = "1.5"
