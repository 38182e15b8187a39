//! IronPass core library: proxy protocol encoders and parsers, backend
//! selection, configuration generation and stores, with Verus contracts.

pub mod analysis;
pub mod api;
pub mod api_client;
pub mod ascii;
pub mod assets;
pub mod backend;
pub mod cli;
pub mod config;
pub mod core_process;
pub mod digest;
pub mod error;
pub mod http_proxy;
pub mod hwid;
pub mod json;
pub mod laws;
pub mod models;
pub mod net;
pub mod node_sort;
pub mod num;
pub mod output;
pub mod paths;
pub mod singbox;
pub mod socks5;
pub mod split;
pub mod split_tunnel;
pub mod text;
pub mod vless;
pub mod traits;
pub mod transport;
pub mod uuid;
pub mod trojan;
pub mod wire;
pub mod xray;
