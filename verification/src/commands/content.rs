//! `m2s2 content init|validate|inspect`: the command-line shape, and what the validation
//! outcome and the human-readable inspection say.

use crate::content::article::{opt_view, Article};
use crate::report::{none_failed, OutputFormat, OutputReport};
use crate::text::{cat, decimal, decimal_string, join_first, join_sep, owned};
use vstd::prelude::*;

verus! {

pub struct ContentArgs {
    pub command: ContentCommands,
}

pub enum ContentCommands {
    /// Create .m2s2/config.toml and the articles/assets directories
    Init(InitArgs),
    /// Run every offline validation rule against a canonical article
    Validate(ValidateArgs),
    /// Print a parsed article plus its validation status
    Inspect(InspectArgs),
}

pub struct InitArgs {
    /// Directory to initialize (defaults to the current directory)
    pub path: Option<String>,
    /// Directory (relative to `path`) that holds article Markdown files
    pub articles_dir: String,
    /// Directory (relative to `path`) that holds local assets (e.g. cover images)
    pub assets_dir: String,
    /// Base URL articles are canonically published under, e.g. https://example.com/blog
    pub canonical_base_url: String,
    /// Overwrite an existing .m2s2/config.toml
    pub force: bool,
}

pub struct ValidateArgs {
    /// Path to the Markdown article
    pub file: String,
    pub format: OutputFormat,
}

pub struct InspectArgs {
    /// Path to the Markdown article
    pub file: String,
    pub format: OutputFormat,
}

/// `content validate` fails exactly when a check failed.
pub fn validation_outcome(report: &OutputReport, file: &str) -> (r: Result<(), String>)
    ensures
        r is Ok <==> none_failed(report@),
        r matches Err(e) ==> e@ == "content validation failed for "@ + file@,
{
    if !report.passed() {
        return Err(cat("content validation failed for ", file));
    }
    Ok(())
}

pub open spec fn or_none(o: Option<Seq<char>>) -> Seq<char> {
    match o {
        Some(s) => s,
        None => "(none)"@,
    }
}

/// The human-readable summary of an article `content inspect` prints before its report:
/// the title (or `(untitled)`), then one indented line per field, then a blank line.
pub open spec fn inspect_lines_spec(a: Article) -> Seq<Seq<char>> {
    seq![
        match opt_view(a.title) {
            Some(t) => t,
            None => "(untitled)"@,
        },
        "  slug: "@ + a.slug@,
        "  summary: "@ + or_none(opt_view(a.summary)),
        "  tags: "@ + join_sep(a.tags@.map_values(|s: String| s@), ", "@),
        "  canonical_url: "@ + or_none(opt_view(a.canonical_url)),
        "  cover_image: "@ + or_none(opt_view(a.cover_image)),
        "  schema_version: "@ + decimal(a.schema_version as nat),
        seq![],
    ]
}

fn or_none_exec(o: &Option<String>) -> (r: String)
    ensures
        r@ == or_none(opt_view(*o)),
{
    match o {
        Some(s) => s.clone(),
        None => owned("(none)"),
    }
}

pub fn inspect_lines(article: &Article) -> (r: Vec<String>)
    ensures
        r@.map_values(|s: String| s@) == inspect_lines_spec(*article),
{
    let title = match &article.title {
        Some(t) => t.clone(),
        None => owned("(untitled)"),
    };
    let tags = join_first(&article.tags, article.tags.len(), ", ");
    assert(article.tags@.map_values(|s: String| s@).take(article.tags.len() as int)
        =~= article.tags@.map_values(|s: String| s@));
    let summary = or_none_exec(&article.summary);
    let canonical = or_none_exec(&article.canonical_url);
    let cover = or_none_exec(&article.cover_image);
    let version = decimal_string(article.schema_version as u64);
    let r = vec![
        title,
        cat("  slug: ", article.slug.as_str()),
        cat("  summary: ", summary.as_str()),
        cat("  tags: ", tags.as_str()),
        cat("  canonical_url: ", canonical.as_str()),
        cat("  cover_image: ", cover.as_str()),
        cat("  schema_version: ", version.as_str()),
        String::new(),
    ];
    assert(r@.map_values(|s: String| s@) =~= inspect_lines_spec(*article));
    r
}

} // verus!
