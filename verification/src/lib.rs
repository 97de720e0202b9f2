//! Reconciles DNS records against the live addresses of local network
//! interfaces: picks the best address per family, memoises zone-name
//! lookups, and plans the minimal create / update / no-op per record.
pub mod cache;
pub mod cloudflare;
pub mod config;
pub mod ip;
pub mod ip_text;
pub mod networking;
pub mod update;
pub mod weblookup;
