//! Verified core of the M²S² command-line tool: naming and slug rules, Markdown frontmatter
//! handling, the content-delivery article checks, publish-request preparation, npm version
//! bookkeeping and scaffolding plans.

pub mod text;
pub mod paths;
pub mod utils;
pub mod markdown;
pub mod types;
pub mod report;
pub mod semver_text;
pub mod npm;
pub mod version_map;
pub mod publish;
pub mod content;
pub mod scaffold;
pub mod config;
pub mod commands;
