[package]
name = "web_transport_quic"
version = "0.1.0"
edition = "2021"
publish = false

[dependencies]
bytes = "1"
dquic = "0.5"
futures = "0.3"
http = "1"
rustls = { version = "0.23", default-features = false, features = ["ring", "std", "tls12", "logging"] }
rustls-native-certs = "0.8"
s2n-quic = { version = "1", default-features = false, features = ["provider-address-token-default", "provider-tls-rustls", "unstable-provider-datagram"] }
thiserror = "2"
tokio = { version = "1", features = ["io-util", "macros", "net", "rt", "rt-multi-thread", "sync", "time"] }
tracing = "0.1"
url = "2"
web-transport-proto = "*"
web-transport-trait = "*"
