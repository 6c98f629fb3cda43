[package]
name = "yaws_tls"
version = "0.1.0"
edition = "2021"
publish = false

[dependencies]
rustls = { version = "=0.23.46", default-features = false, features = ["std", "tls12"] }
rustls-pki-types = { version = "=1.15.1", features = ["std"] }
rustls-rustcrypto = "=0.0.2-alpha"
heapless = "=0.8.0"
hex = "=0.4.3"
rand = "0.10"
ytls-server = "=0.0.9"
ytls-traits = "=0.0.3"
ytls-typed = "=0.0.1"
ytls-rustcrypto = "=0.0.3"
blueprint = "=0.2.0"
pem-rfc7468 = { version = "=1.0.0", features = ["alloc"] }
sec1 = "=0.8.1"
openssl = "=0.10.82"
