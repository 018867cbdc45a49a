//! The canonical content-delivery article schema and its `.m2s2/config.toml`.

pub mod article;
pub mod config;
