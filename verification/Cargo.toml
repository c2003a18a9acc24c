[package]
name = "cf_ddns_ipv6"
version = "0.1.1"
edition = "2021"
publish = false

[dependencies]
anyhow = "1"
axum = "0.8"
chrono = "0.4"
futures-util = "0.3"
keyring = "3"
maxminddb = "0.26"
mime_guess = "2"
netdev = "*"
parking_lot = "0.12"
reqwest = { version = "0.12", default-features = false, features = ["json", "rustls-tls"] }
rtnetlink = "*"
serde = { version = "1", features = ["derive"] }
serde_json = "1"
system-configuration = "*"
tokio = { version = "1", features = ["fs", "net", "rt", "sync", "time"] }
windows-sys = { version = "*", features = ["Win32_Foundation", "Win32_NetworkManagement_IpHelper", "Win32_NetworkManagement_Ndis", "Win32_Networking_WinSock"] }
