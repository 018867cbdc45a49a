//! Publishing Markdown articles to Dev.to, Hashnode and generic blog platforms.

pub mod cover_image;
pub mod article;
pub mod target_kind;
pub mod config;
pub mod reply;
pub mod target;
pub mod targets;
