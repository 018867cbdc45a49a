//! The `.m2s2/config.toml` of the content-delivery workflow: only the `[content]` section.

use crate::paths::{join, join_spec};
use crate::text::{cat, cat3, decimal, decimal_string, has_prefix, str_starts_with};
use vstd::prelude::*;

verus! {

pub const DEFAULT_ARTICLES_DIR: &'static str = "articles";

pub const DEFAULT_ASSETS_DIR: &'static str = "assets";

/// The only `.m2s2/config.toml` `schema_version` this tool understands.
pub const SUPPORTED_CONFIG_SCHEMA_VERSION: u32 = 1;

#[derive(Debug)]
pub struct ContentConfig {
    pub schema_version: u32,
    pub content: ContentSection,
}

#[derive(Debug)]
pub struct ContentSection {
    pub articles_dir: String,
    pub assets_dir: String,
    pub canonical_base_url: String,
}

pub open spec fn unsupported_version_message(path: Seq<char>, version: u32) -> Seq<char> {
    path + " has schema_version "@ + decimal(version as nat) + " but this CLI only supports "@
        + decimal(SUPPORTED_CONFIG_SCHEMA_VERSION as nat)
        + " — upgrade m2s2-cli or update the config"@
}

impl ContentConfig {
    /// Accepts a parsed config read from `path` only if its `schema_version` is supported.
    pub fn accept(self, path: &str) -> (r: Result<ContentConfig, String>)
        ensures
            self.schema_version == SUPPORTED_CONFIG_SCHEMA_VERSION ==> r == Ok::<
                ContentConfig,
                String,
            >(self),
            self.schema_version != SUPPORTED_CONFIG_SCHEMA_VERSION ==> (r matches Err(e)
                && e@ == unsupported_version_message(path@, self.schema_version)),
    {
        if self.schema_version != SUPPORTED_CONFIG_SCHEMA_VERSION {
            let v = decimal_string(self.schema_version as u64);
            let s = decimal_string(SUPPORTED_CONFIG_SCHEMA_VERSION as u64);
            let head = cat3(path, " has schema_version ", v.as_str());
            let mid = cat3(head.as_str(), " but this CLI only supports ", s.as_str());
            return Err(cat(mid.as_str(), " — upgrade m2s2-cli or update the config"));
        }
        Ok(self)
    }

    /// The articles directory under `root`.
    pub fn articles_dir(&self, root: &str) -> (r: String)
        ensures
            r@ == join_spec(root@, self.content.articles_dir@),
    {
        join(root, self.content.articles_dir.as_str())
    }

    /// The assets directory under `root`.
    pub fn assets_dir(&self, root: &str) -> (r: String)
        ensures
            r@ == join_spec(root@, self.content.assets_dir@),
    {
        join(root, self.content.assets_dir.as_str())
    }
}

/// The `.m2s2/config.toml` text `content init` writes.
pub open spec fn config_text(articles_dir: Seq<char>, assets_dir: Seq<char>, base: Seq<char>) -> Seq<char> {
    "schema_version = "@ + decimal(SUPPORTED_CONFIG_SCHEMA_VERSION as nat)
        + "\n\n[content]\narticles_dir = \""@ + articles_dir + "\"\nassets_dir = \""@ + assets_dir
        + "\"\ncanonical_base_url = \""@ + base + "\"\n"@
}

/// Why `content init` refuses, if it does: a base URL that isn't `https://` comes first, then
/// an existing config without `force`.
pub open spec fn init_refusal(base: Seq<char>, config_path: Seq<char>, exists: bool, force: bool) -> Option<Seq<char>> {
    if !has_prefix(base, "https://"@) {
        Some("canonical_base_url must be an absolute https:// URL, got '"@ + base + "'"@)
    } else if exists && !force {
        Some(config_path + " already exists — pass --force to overwrite it"@)
    } else {
        None
    }
}

/// Decides what `content init` writes to `.m2s2/config.toml` (shown as `config_path`): an error
/// if the canonical base URL isn't `https://`, or the config exists and `force` is off;
/// otherwise the config text.
pub fn init_contents(
    articles_dir: &str,
    assets_dir: &str,
    canonical_base_url: &str,
    config_path: &str,
    config_exists: bool,
    force: bool,
) -> (r: Result<String, String>)
    ensures
        match init_refusal(canonical_base_url@, config_path@, config_exists, force) {
            Some(msg) => r matches Err(e) && e@ == msg,
            None => r matches Ok(t) && t@ == config_text(
                articles_dir@,
                assets_dir@,
                canonical_base_url@,
            ),
        },
{
    if !str_starts_with(canonical_base_url, "https://") {
        return Err(cat3(
            "canonical_base_url must be an absolute https:// URL, got '",
            canonical_base_url,
            "'",
        ));
    }
    if config_exists && !force {
        return Err(cat(config_path, " already exists — pass --force to overwrite it"));
    }
    let v = decimal_string(SUPPORTED_CONFIG_SCHEMA_VERSION as u64);
    let t = cat3("schema_version = ", v.as_str(), "\n\n[content]\narticles_dir = \"");
    let t = cat3(t.as_str(), articles_dir, "\"\nassets_dir = \"");
    let t = cat3(t.as_str(), assets_dir, "\"\ncanonical_base_url = \"");
    Ok(cat3(t.as_str(), canonical_base_url, "\"\n"))
}

/// Where the content configuration of the content root `root` lives: `.m2s2/config.toml`.
pub fn config_path(root: &str) -> (r: String)
    ensures
        r@ == join_spec(join_spec(root@, ".m2s2"@), "config.toml"@),
{
    let dir = join(root, ".m2s2");
    join(dir.as_str(), "config.toml")
}

/// The error when the content configuration can't be read.
pub fn missing_config_message(path: &str) -> (r: String)
    ensures
        r@ == "no "@ + path@ + " found — run `m2s2 content init` first"@,
{
    cat3("no ", path, " found — run `m2s2 content init` first")
}


/// `content init` refuses a canonical base URL that is not `https://`, whatever else holds; with
/// an `https://` base it refuses only to overwrite an existing config without `--force`.
pub proof fn law_init_refuses_only_non_https_or_overwrite(
    base: Seq<char>,
    config_path: Seq<char>,
    exists: bool,
    force: bool,
)
    ensures
        !has_prefix(base, "https://"@) ==> init_refusal(base, config_path, exists, force) is Some,
        has_prefix(base, "https://"@) ==> (init_refusal(base, config_path, exists, force) is Some <==> (exists
            && !force)),
{
}

} // verus!
