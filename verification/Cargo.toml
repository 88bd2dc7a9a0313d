[package]
name = "feeder"
version = "0.1.0"
edition = "2021"
publish = false

[dependencies]
chrono = "0.4"
serde = { version = "1", features = ["derive"] }
serde_json = "1"
rss = "*"
reqwest = { version = "*", default-features = false, features = ["blocking", "rustls-tls"] }
diesel = { version = "2", features = ["postgres", "r2d2", "chrono"] }
r2d2 = "*"
actix = "*"
actix-web = { version = "4", default-features = false, features = ["macros"] }
juniper = "*"
yew = { version = "*", features = ["csr"] }
gloo-net = "*"
dotenv = "*"
env_logger = "*"
log = "0.4"
futures = "0.3"
quicli = "*"
structopt = "*"
