[package]
name = "tunnel_negotiation"
version = "0.1.0"
edition = "2021"
publish = false

[dependencies]
classic-mceliece-rust = { version = "=3.1.0", features = ["mceliece8192128f"] }
x25519-dalek = { version = "=2.0.1", features = ["static_secrets"] }
rand = "=0.8.8"
widestring = "=1.2.1"
ipnetwork = "=0.21.1"
tonic = "=0.12.3"
prost = "=0.13.5"
tokio = { version = "=1.53.2", features = ["macros", "rt-multi-thread", "sync"] }
log = "=0.4.34"
libc = "=0.2.190"
windows-sys = { version = "=0.61.2", features = ["Win32_Foundation", "Win32_Globalization", "Win32_System_Com"] }
