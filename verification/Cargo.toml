[package]
name = "grpc_hook"
version = "0.1.0"
edition = "2021"
publish = false

[dependencies]
prost = "=0.14.4"
tokio = { version = "=1.54.1", features = ["rt", "rt-multi-thread", "time"] }
tonic = { version = "=0.14.9", default-features = false, features = ["channel", "codegen"] }
tonic-prost = "=0.14.9"
tracing = "=0.1.44"
zenoh-keyexpr = "=1.10.2"
zenoh-link = { version = "=1.10.2", default-features = false }
zenoh-protocol = { version = "=1.10.2", features = ["unstable"] }
zenoh-result = "=1.10.2"
zenoh-transport = { version = "=1.10.2", default-features = false, features = ["auth_usrpwd", "unstable"] }
