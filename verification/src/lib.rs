//! Verified core of a usage monitor: credential selection, quota mapping,
//! source rotation and report caching, stated over plain values.

pub mod agent_grokbot;
pub mod agent_warp;
pub mod doubles;
pub mod encoding;
pub mod envelope;
pub mod http;
pub mod json;
pub mod keychain_consent;
pub mod numbers;
pub mod paths;
pub mod reports;
pub mod safe_storage;
pub mod text;
pub mod timestamps;
pub mod warp_usage;
