[package]
name = "keepass4web"
version = "0.1.0"
edition = "2021"
publish = false

[dependencies]
actix-files = "=0.6.10"
actix-session = { version = "=0.9.0", features = ["cookie-session"] }
actix-web = { version = "=4.18.1", default-features = false, features = ["macros", "cookies"] }
aes-gcm = "=0.10.3"
anyhow = "=1.0.104"
base64 = "=0.21.7"
constant_time_eq = "=0.3.1"
env_logger = "=0.10.2"
futures-util = "=0.3.34"
htpasswd-verify = "=0.3.0"
humantime-serde = "=1.1.1"
keepass = { version = "0.7", features = ["serialization", "save_kdbx4"] }
ldap3 = { version = "=0.11.5", default-features = false, features = ["sync"] }
linux-keyutils = "=0.2.5"
log = "=0.4.34"
openidconnect = "=3.5.0"
postcard = { version = "1", default-features = false, features = ["use-std"] }
rand = "=0.8.8"
regex = "=1.13.1"
reqwest = { version = "=0.11.27", default-features = false, features = ["stream", "rustls-tls"] }
secrecy = "=0.8.0"
serde = { version = "=1.0.229", features = ["derive"] }
serde_json = "=1.0.154"
serde_yaml = "0.9"
tokio = { version = "=1.54.1", features = ["full"] }
tokio-util = { version = "=0.7.20", features = ["compat", "io"] }
totp-rs = { version = "5", features = ["otpauth"] }
url = { version = "=2.5.8", features = ["serde"] }
uuid = { version = "1", features = ["serde"] }
zeroize = { version = "=1.9.1", features = ["derive"] }
