//! Keeps a public IPv6 DNS record in step with the best globally routable
//! address of this host: the address-selection engine and the decisions of the
//! change-driven synchronisation controller.

pub mod address;
pub mod carrier_map;
pub mod cloudflare;
pub mod config;
pub mod firewall;
pub mod geoip;
pub mod homepage;
pub mod ipv6_stability;
pub mod models;
pub mod network;
pub mod platform;
pub mod secure_store;
pub mod sync;
pub mod text;
