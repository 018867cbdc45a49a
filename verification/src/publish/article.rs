//! A publishable article: YAML frontmatter + Markdown body.

use crate::markdown::{slug_of, slugify as markdown_slugify};
use crate::publish::target_kind::TargetKind;
use crate::text::{cat3, trim, trim_spec};
use vstd::prelude::*;

verus! {

#[derive(Debug)]
pub struct Article {
    pub title: String,
    pub slug: String,
    pub date: String,
    pub summary: String,
    pub excerpt: Option<String>,
    pub tags: Vec<String>,
    /// Raw frontmatter value — a URL, or a path to a local file resolved relative to `base_dir`.
    pub cover_image: Option<String>,
    pub canonical_url: Option<String>,
    pub targets: Vec<TargetKind>,
    pub content: String,
    /// The directory containing the source Markdown file.
    pub base_dir: String,
}

/// The frontmatter fields of a publishable article, as the YAML block holds them.
pub struct Frontmatter {
    pub title: String,
    pub slug: Option<String>,
    pub date: String,
    pub summary: String,
    pub excerpt: Option<String>,
    pub tags: Vec<String>,
    pub cover_image: Option<String>,
    pub canonical_url: Option<String>,
    pub publish: Vec<TargetKind>,
}

/// Lowercase, alphanumeric-and-dashes slug (e.g. for tag slugs or a filename-derived post slug).
pub fn slugify(input: &str) -> (r: String)
    ensures
        r@ == slug_of(input@),
{
    markdown_slugify(input)
}

fn copy_kinds(v: &Vec<TargetKind>) -> (r: Vec<TargetKind>)
    ensures
        r@ == v@,
{
    let mut out: Vec<TargetKind> = Vec::new();
    let mut i: usize = 0;
    while i < v.len()
        invariant
            i <= v.len(),
            out@ == v@.take(i as int),
        decreases v.len() - i,
    {
        out.push(v[i]);
        assert(out@ =~= v@.take(i + 1));
        i = i + 1;
    }
    assert(v@.take(v.len() as int) =~= v@);
    out
}

/// The targets an article is published to: the `--to` list when given, else its `publish:` list.
pub open spec fn chosen_targets(fm: Frontmatter, cli: Option<Seq<TargetKind>>) -> Seq<TargetKind> {
    match cli {
        Some(t) => t,
        None => fm.publish@,
    }
}

pub open spec fn no_targets_message(path: Seq<char>) -> Seq<char> {
    "no publish targets — add `publish: [devto, ...]` to "@ + path
        + "'s frontmatter or pass --to"@
}

/// Builds the article from its parsed frontmatter, the source file (`path` as displayed, its
/// stem and its directory) and the Markdown body. `cli_targets`, if given (from `--to`),
/// overrides the frontmatter's `publish:` list; no target at all is an error.
pub fn article_from_parts(
    fm: Frontmatter,
    path: &str,
    file_stem: Option<&str>,
    base_dir: String,
    body: &str,
    cli_targets: Option<&Vec<TargetKind>>,
) -> (r: Result<Article, String>)
    ensures
        ({
            let targets = chosen_targets(
                fm,
                match cli_targets {
                    Some(t) => Some(t@),
                    None => None,
                },
            );
            if targets.len() == 0 {
                r matches Err(e) && e@ == no_targets_message(path@)
            } else {
                r matches Ok(a) && a.title == fm.title && a.slug@ == (match fm.slug {
                    Some(s) => s@,
                    None => match file_stem {
                        Some(s) => slug_of(s@),
                        None => slug_of("post"@),
                    },
                }) && a.date == fm.date && a.summary == fm.summary && a.excerpt == fm.excerpt
                    && a.tags == fm.tags && a.cover_image == fm.cover_image && a.canonical_url
                    == fm.canonical_url && a.targets@ == targets && a.content@ == trim_spec(body@)
                    && a.base_dir == base_dir
            }
        }),
{
    let ghost fm0 = fm;
    let slug = match fm.slug {
        Some(s) => s,
        None => match file_stem {
            Some(stem) => slugify(stem),
            None => slugify("post"),
        },
    };
    let targets = match cli_targets {
        Some(t) => copy_kinds(t),
        None => fm.publish,
    };
    if targets.len() == 0 {
        return Err(cat3(
            "no publish targets — add `publish: [devto, ...]` to ",
            path,
            "'s frontmatter or pass --to",
        ));
    }
    Ok(Article {
        title: fm.title,
        slug,
        date: fm.date,
        summary: fm.summary,
        excerpt: fm.excerpt,
        tags: fm.tags,
        cover_image: fm.cover_image,
        canonical_url: fm.canonical_url,
        targets,
        content: trim(body),
        base_dir,
    })
}

} // verus!
