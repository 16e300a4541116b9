[package]
name = "tack"
version = "0.1.0"
edition = "2021"
publish = false

[dependencies]
hex = "=0.4.3"
sha2 = "=0.11.1"
postcard = { version = "=1.1.3", features = ["use-std"] }
zip = "=9.2.2"
os_pipe = "=1.2.3"
java-locator = "=0.1.9"
jni = { version = "=0.22.4", features = ["invocation"] }
curl = "=0.4.51"
core-foundation = "=0.10.1"
nyquest-preset = "=0.5.0"
openssl-probe = "=0.2.2"

[lints.rust]
unexpected_cfgs = { level = "warn", check-cfg = ["cfg(rustls)"] }
