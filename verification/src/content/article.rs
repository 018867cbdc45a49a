//! The canonical content-delivery article schema — deliberately separate from
//! `publish::article::Article`: this one requires `canonical_url` and has no `date`/`targets`.
//! Parsing keeps every field as authored so that `validate` reports a full checklist instead of
//! stopping at the first missing field.

use crate::markdown::{all_ascii, is_slug, law_slug_fixed_point, law_slug_well_formed, slug_of, slugify, views};
use crate::npm::{join_comma, views_of_strings, words_of, words_vec};
use crate::publish::cover_image::{is_hosted_url, is_hosted_url_spec};
use crate::report::{check_of, none_failed, CheckStatus, CheckView, OutputReport};
use crate::text::{
    all_space, cat, cat3, cat4, cat5, chars_of, contains, contains_seq, decimal, decimal_string,
    extend_chars, has_prefix, is_blank, lemma_blank_iff_trim_empty, matches_at, occurs_at,
    starts_with, str_starts_with, string_of, trim, trim_spec,
};
use vstd::prelude::*;

verus! {

pub const CURRENT_SCHEMA_VERSION: u32 = 1;

/// A parsed article. Every field is left as authored (absent required fields as `None`/empty).
#[derive(Debug)]
pub struct Article {
    pub schema_version: u32,
    pub title: Option<String>,
    pub slug: String,
    pub summary: Option<String>,
    pub tags: Vec<String>,
    pub canonical_url: Option<String>,
    /// Raw frontmatter value — a URL, or a path to a local file resolved relative to `base_dir`.
    pub cover_image: Option<String>,
    pub content: String,
    /// The directory containing the source Markdown file.
    pub base_dir: String,
}

/// The frontmatter fields of an article, as the YAML block holds them.
pub struct Frontmatter {
    pub schema_version: Option<u32>,
    pub title: Option<String>,
    pub slug: Option<String>,
    pub summary: Option<String>,
    pub tags: Vec<String>,
    pub canonical_url: Option<String>,
    pub cover_image: Option<String>,
}

/// The text of an optional string.
pub open spec fn opt_view(o: Option<String>) -> Option<Seq<char>> {
    match o {
        Some(s) => Some(s@),
        None => None,
    }
}

/// The slug an article gets when its frontmatter has none: the slug of the file's stem, or
/// of `post` when the file name has no usable stem.
pub open spec fn default_slug(file_stem: Option<Seq<char>>) -> Seq<char> {
    match file_stem {
        Some(stem) => slug_of(stem),
        None => slug_of("post"@),
    }
}

/// Builds the article from its parsed frontmatter, the source file's stem and directory, and
/// the Markdown body: a missing `slug` is derived from the file stem, a missing
/// `schema_version` is the current one, and the body is trimmed.
pub fn article_from_parts(
    fm: Frontmatter,
    file_stem: Option<&str>,
    base_dir: String,
    body: &str,
) -> (r: Article)
    ensures
        r.schema_version == (match fm.schema_version {
            Some(v) => v,
            None => CURRENT_SCHEMA_VERSION,
        }),
        r.title == fm.title,
        r.slug@ == (match fm.slug {
            Some(s) => s@,
            None => default_slug(
                match file_stem {
                    Some(s) => Some(s@),
                    None => None,
                },
            ),
        }),
        r.summary == fm.summary,
        r.tags == fm.tags,
        r.canonical_url == fm.canonical_url,
        r.cover_image == fm.cover_image,
        r.content@ == trim_spec(body@),
        r.base_dir == base_dir,
{
    let slug = match fm.slug {
        Some(s) => s,
        None => match file_stem {
            Some(stem) => slugify(stem),
            None => slugify("post"),
        },
    };
    let schema_version = match fm.schema_version {
        Some(v) => v,
        None => CURRENT_SCHEMA_VERSION,
    };
    Article {
        schema_version,
        title: fm.title,
        slug,
        summary: fm.summary,
        tags: fm.tags,
        canonical_url: fm.canonical_url,
        cover_image: fm.cover_image,
        content: trim(body),
        base_dir,
    }
}

// ── What the file system said ────────────────────────────────────────────────

/// Whether a path stays inside the configured content roots.
pub enum PathCheck {
    /// It resolves to a place under one of the roots.
    Within,
    /// It resolves to a place outside every root.
    Escapes,
    /// It could not be resolved; the error text as displayed.
    Unresolved(String),
}

/// What reading a local cover image found.
pub enum LocalCover {
    /// The file could not be read at `path`; `error` is the I/O error as displayed.
    Unreadable { path: String, error: String },
    /// The file was read; its file name, and where its path resolves.
    Readable { filename: String, escape: PathCheck },
}

/// Everything `validate` needs to know from the file system.
pub struct ValidationFacts {
    /// The articles directory, as displayed.
    pub articles_dir: String,
    /// Another Markdown file under the articles directory with the same slug, as displayed.
    pub duplicate_of: Option<String>,
    /// For a local `cover_image`: what reading it found.
    pub local_cover: Option<LocalCover>,
    /// For each local link target of the body (see `extract_local_link_targets`), in order:
    /// whether it fails to stay inside the content roots (escapes, or can't be resolved).
    pub link_escapes: Vec<bool>,
}

/// The article's `cover_image` is set and is not a hosted URL, so names a local file.
pub open spec fn has_local_cover(a: Article) -> bool {
    match a.cover_image {
        Some(c) => !is_hosted_url_spec(c@),
        None => false,
    }
}

/// The facts were gathered for `a`: a reading of the cover exactly when the cover is a local
/// file, and one escape flag for each local link target of the body.
pub open spec fn facts_fit(a: Article, facts: ValidationFacts) -> bool {
    &&& facts.local_cover is Some <==> has_local_cover(a)
    &&& facts.link_escapes.len() == link_targets(a.content@).len()
}

/// Whether the canonical path `path` lies under the canonical directory `root` (component-wise).
pub open spec fn under_root(path: Seq<char>, root: Seq<char>) -> bool {
    path == root || has_prefix(
        path,
        if root.len() > 0 && root.last() == '/' {
            root
        } else {
            root + "/"@
        },
    )
}

/// `root` was resolved and `path` lies under it.
pub open spec fn root_holds(root: Option<String>, path: Seq<char>) -> bool {
    match root {
        Some(r) => under_root(path, r@),
        None => false,
    }
}

fn is_under(path: &str, root: &str) -> (r: bool)
    ensures
        r == under_root(path@, root@),
{
    proof {
        reveal_strlit("/");
    }
    if crate::text::str_equal(path, root) {
        return true;
    }
    let rv = chars_of(root);
    if rv.len() > 0 && rv[rv.len() - 1] == '/' {
        str_starts_with(path, root)
    } else {
        let with_slash = cat(root, "/");
        str_starts_with(path, with_slash.as_str())
    }
}

/// Checks a resolved path against the resolved content roots (a root that could not be
/// resolved holds nothing): inside one of them, outside all, or not resolvable at all.
pub fn path_check(canonical: Result<String, String>, canonical_roots: &Vec<Option<String>>) -> (r: PathCheck)
    ensures
        canonical matches Err(e) ==> r == PathCheck::Unresolved(e),
        canonical matches Ok(c) ==> match r {
            PathCheck::Within => exists|k: int|
                0 <= k < canonical_roots@.len() && #[trigger] root_holds(canonical_roots@[k], c@),
            PathCheck::Escapes => forall|k: int|
                0 <= k < canonical_roots@.len() ==> !#[trigger] root_holds(canonical_roots@[k], c@),
            PathCheck::Unresolved(_) => false,
        },
{
    match canonical {
        Err(e) => PathCheck::Unresolved(e),
        Ok(c) => {
            let w = within_some(c.as_str(), canonical_roots);
            if w {
                PathCheck::Within
            } else {
                PathCheck::Escapes
            }
        },
    }
}

fn within_some(c: &str, canonical_roots: &Vec<Option<String>>) -> (r: bool)
    ensures
        r == exists|k: int| 0 <= k < canonical_roots@.len() && #[trigger] root_holds(canonical_roots@[k], c@),
{
    let mut i: usize = 0;
    while i < canonical_roots.len()
        invariant
            i <= canonical_roots.len(),
            forall|j: int| 0 <= j < i ==> !#[trigger] root_holds(canonical_roots@[j], c@),
        decreases canonical_roots.len() - i,
    {
        match &canonical_roots[i] {
            Some(root) => {
                if is_under(c, root.as_str()) {
                    assert(root_holds(canonical_roots@[i as int], c@));
                    return true;
                }
            },
            None => {},
        }
        i = i + 1;
    }
    false
}

/// Whether a path check means the path can't be trusted: it escapes, or it can't be resolved.
pub fn path_escapes_roots(check: &PathCheck) -> (r: bool)
    ensures
        r == !(check is Within),
{
    match check {
        PathCheck::Within => false,
        _ => true,
    }
}

/// The error for a path that could not be resolved.
pub fn unresolved_message(path: &str, error: &str) -> (r: String)
    ensures
        r@ == "couldn't resolve path "@ + path@ + ": "@ + error@,
{
    cat4("couldn't resolve path ", path, ": ", error)
}

/// Whether a Markdown file under the articles directory duplicates the slug `slug` of the
/// article being validated: it must be another file (its resolved path differs from the
/// article's; two unresolvable paths count as the same file) and its own slug, read only then,
/// must be `slug` (a file that can't be parsed has none).
pub fn is_other_with_slug<F: FnOnce() -> Option<String>>(
    slug: &str,
    source_canonical: &Option<String>,
    candidate_canonical: &Option<String>,
    read_slug: F,
) -> (r: bool)
    requires
        call_requires(read_slug, ()),
    ensures
        opt_view(*candidate_canonical) == opt_view(*source_canonical) ==> !r,
        opt_view(*candidate_canonical) != opt_view(*source_canonical) ==> exists|other: Option<String>|
            #![trigger call_ensures(read_slug, (), other)]
            call_ensures(read_slug, (), other) && r == (opt_view(other) == Some(slug@)),
{
    let same = match (source_canonical, candidate_canonical) {
        (Some(a), Some(b)) => crate::text::str_equal(a.as_str(), b.as_str()),
        (None, None) => true,
        _ => false,
    };
    if same {
        return false;
    }
    let other = read_slug();
    match &other {
        Some(o) => crate::text::str_equal(o.as_str(), slug),
        None => false,
    }
}

// ── Required fields ──────────────────────────────────────────────────────────

/// Whether an optional field holds something other than whitespace.
pub open spec fn is_present(value: Option<Seq<char>>) -> bool {
    match value {
        Some(v) => !all_space(v),
        None => false,
    }
}

/// The check `check_present` adds.
pub open spec fn presence_check(code: Seq<char>, field: Seq<char>, value: Option<Seq<char>>) -> CheckView {
    if is_present(value) {
        check_of(code, CheckStatus::Passed, field + " is present"@)
    } else {
        check_of(code, CheckStatus::Failed, field + " is missing or empty"@)
    }
}

fn opt_str(o: &Option<String>) -> (r: Option<&str>)
    ensures
        match r {
            Some(s) => opt_view(*o) == Some(s@),
            None => o is None,
        },
{
    match o {
        Some(s) => Some(s.as_str()),
        None => None,
    }
}

/// Reports whether `value` is present and not blank.
pub fn check_present(report: &mut OutputReport, code: &'static str, field: &str, value: Option<&str>)
    ensures
        final(report)@ == old(report)@.push(
            presence_check(
                code@,
                field@,
                match value {
                    Some(v) => Some(v@),
                    None => None,
                },
            ),
        ),
{
    match value {
        Some(v) => {
            if !is_blank(v) {
                let msg = cat(field, " is present");
                report.push(code, CheckStatus::Passed, msg.as_str());
                return ;
            }
        },
        None => {},
    }
    let msg = cat(field, " is missing or empty");
    report.push(code, CheckStatus::Failed, msg.as_str());
}

/// The checks `check_required` adds.
pub open spec fn required_checks(a: Article) -> Seq<CheckView> {
    seq![
        presence_check("content.title.present"@, "title"@, opt_view(a.title)),
        presence_check("content.summary.present"@, "summary"@, opt_view(a.summary)),
        presence_check("content.canonical_url.present"@, "canonical_url"@, opt_view(a.canonical_url)),
        if a.tags.len() == 0 {
            check_of(
                "content.tags.present"@,
                CheckStatus::Failed,
                "tags is empty — at least one tag is required"@,
            )
        } else {
            check_of(
                "content.tags.present"@,
                CheckStatus::Passed,
                decimal(a.tags.len() as nat) + " tag(s) present"@,
            )
        },
        if trim_spec(a.content@).len() == 0 {
            check_of("content.body.present"@, CheckStatus::Failed, "article body is empty"@)
        } else {
            check_of("content.body.present"@, CheckStatus::Passed, "article body is non-empty"@)
        },
    ]
}

/// Title, summary, canonical URL, at least one tag and a non-blank body.
pub fn check_required(article: &Article, report: &mut OutputReport)
    ensures
        final(report)@ == old(report)@ + required_checks(*article),
{
    let ghost start = report@;
    check_present(report, "content.title.present", "title", opt_str(&article.title));
    check_present(report, "content.summary.present", "summary", opt_str(&article.summary));
    check_present(
        report,
        "content.canonical_url.present",
        "canonical_url",
        opt_str(&article.canonical_url),
    );
    if article.tags.len() == 0 {
        report.push(
            "content.tags.present",
            CheckStatus::Failed,
            "tags is empty — at least one tag is required",
        );
    } else {
        let msg = cat(decimal_string(article.tags.len() as u64).as_str(), " tag(s) present");
        report.push("content.tags.present", CheckStatus::Passed, msg.as_str());
    }
    proof {
        lemma_blank_iff_trim_empty(article.content@);
    }
    if is_blank(article.content.as_str()) {
        report.push("content.body.present", CheckStatus::Failed, "article body is empty");
    } else {
        report.push("content.body.present", CheckStatus::Passed, "article body is non-empty");
    }
    assert(report@ =~= start + required_checks(*article));
}

// ── Canonical URL ────────────────────────────────────────────────────────────

/// The canonical URL, if it is present and not blank.
pub open spec fn usable_url(a: Article) -> Option<Seq<char>> {
    match a.canonical_url {
        Some(u) => if all_space(u@) {
            None
        } else {
            Some(u@)
        },
        None => None,
    }
}

fn usable_url_exec(article: &Article) -> (r: Option<&str>)
    ensures
        match r {
            Some(u) => usable_url(*article) == Some(u@),
            None => usable_url(*article) is None,
        },
{
    match &article.canonical_url {
        Some(u) => if is_blank(u.as_str()) {
            None
        } else {
            Some(u.as_str())
        },
        None => None,
    }
}

/// The checks `check_canonical_url_https` adds: none without a usable canonical URL
/// (`check_required` reports that), else whether it is `https://` followed by something.
pub open spec fn https_checks(a: Article) -> Seq<CheckView> {
    match usable_url(a) {
        None => seq![],
        Some(url) => if has_prefix(url, "https://"@) && url.len() > 8 {
            seq![
                check_of(
                    "content.canonical_url.https"@,
                    CheckStatus::Passed,
                    "canonical_url is an absolute https URL"@,
                ),
            ]
        } else {
            seq![
                check_of(
                    "content.canonical_url.https"@,
                    CheckStatus::Failed,
                    "canonical_url '"@ + url + "' must be an absolute https:// URL"@,
                ),
            ]
        },
    }
}

/// The canonical URL must be an absolute `https://` URL.
pub fn check_canonical_url_https(article: &Article, report: &mut OutputReport)
    ensures
        final(report)@ == old(report)@ + https_checks(*article),
{
    proof {
        reveal_strlit("https://");
    }
    let ghost start = report@;
    let url = match usable_url_exec(article) {
        Some(u) => u,
        None => {
            assert(report@ =~= start + https_checks(*article));
            return ;
        },
    };
    let n = chars_of(url).len();
    if str_starts_with(url, "https://") && n > 8 {
        report.push(
            "content.canonical_url.https",
            CheckStatus::Passed,
            "canonical_url is an absolute https URL",
        );
    } else {
        let msg = cat3("canonical_url '", url, "' must be an absolute https:// URL");
        report.push("content.canonical_url.https", CheckStatus::Failed, msg.as_str());
    }
    assert(report@ =~= start + https_checks(*article));
}

/// The checks `check_canonical_url_matches_base` adds: none without a usable canonical URL,
/// else whether it starts with the configured base URL.
pub open spec fn base_checks(a: Article, base: Seq<char>) -> Seq<CheckView> {
    match usable_url(a) {
        None => seq![],
        Some(url) => if has_prefix(url, base) {
            seq![
                check_of(
                    "content.canonical_url.matches_base"@,
                    CheckStatus::Passed,
                    "canonical_url is under the configured canonical_base_url"@,
                ),
            ]
        } else {
            seq![
                check_of(
                    "content.canonical_url.matches_base"@,
                    CheckStatus::Failed,
                    "canonical_url '"@ + url
                        + "' is not under the configured canonical_base_url '"@ + base + "'"@,
                ),
            ]
        },
    }
}

/// The canonical URL must lie under the configured `canonical_base_url`.
pub fn check_canonical_url_matches_base(
    article: &Article,
    canonical_base_url: &str,
    report: &mut OutputReport,
)
    ensures
        final(report)@ == old(report)@ + base_checks(*article, canonical_base_url@),
{
    let ghost start = report@;
    let url = match usable_url_exec(article) {
        Some(u) => u,
        None => {
            assert(report@ =~= start + base_checks(*article, canonical_base_url@));
            return ;
        },
    };
    if str_starts_with(url, canonical_base_url) {
        report.push(
            "content.canonical_url.matches_base",
            CheckStatus::Passed,
            "canonical_url is under the configured canonical_base_url",
        );
    } else {
        let msg = cat5(
            "canonical_url '",
            url,
            "' is not under the configured canonical_base_url '",
            canonical_base_url,
            "'",
        );
        report.push("content.canonical_url.matches_base", CheckStatus::Failed, msg.as_str());
    }
    assert(report@ =~= start + base_checks(*article, canonical_base_url@));
}

// ── Slug ─────────────────────────────────────────────────────────────────────

/// A slug passes when it is non-empty and is its own slug.
pub open spec fn slug_well_formed(slug: Seq<char>) -> bool {
    slug.len() > 0 && slug_of(slug) == slug
}

/// The checks `check_slug` adds.
pub open spec fn slug_checks(a: Article, duplicate_of: Option<Seq<char>>, articles_dir: Seq<char>) -> Seq<CheckView> {
    seq![
        if slug_well_formed(a.slug@) {
            check_of(
                "content.slug.wellformed"@,
                CheckStatus::Passed,
                "slug '"@ + a.slug@ + "' is well-formed"@,
            )
        } else {
            check_of(
                "content.slug.wellformed"@,
                CheckStatus::Failed,
                "slug '"@ + a.slug@
                    + "' is not well-formed (expected lowercase, alphanumeric, dash-separated)"@,
            )
        },
        match duplicate_of {
            Some(path) => check_of(
                "content.slug.duplicate"@,
                CheckStatus::Failed,
                "slug '"@ + a.slug@ + "' is already used by "@ + path,
            ),
            None => check_of(
                "content.slug.duplicate"@,
                CheckStatus::Passed,
                "slug '"@ + a.slug@ + "' is unique under "@ + articles_dir,
            ),
        },
    ]
}

fn is_empty_text(s: &str) -> (r: bool)
    ensures
        r == (s@.len() == 0),
{
    chars_of(s).len() == 0
}

fn same_text(a: &String, b: &String) -> (r: bool)
    ensures
        r == (a@ == b@),
{
    a.eq(b)
}

/// The slug must be well-formed and unused by any other article under the articles directory.
pub fn check_slug(
    article: &Article,
    duplicate_of: Option<&str>,
    articles_dir: &str,
    report: &mut OutputReport,
)
    ensures
        final(report)@ == old(report)@ + slug_checks(
            *article,
            match duplicate_of {
                Some(p) => Some(p@),
                None => None,
            },
            articles_dir@,
        ),
{
    let ghost start = report@;
    let reslug = slugify(article.slug.as_str());
    let well_formed = !is_empty_text(article.slug.as_str()) && same_text(&reslug, &article.slug);
    if well_formed {
        let msg = cat3("slug '", article.slug.as_str(), "' is well-formed");
        report.push("content.slug.wellformed", CheckStatus::Passed, msg.as_str());
    } else {
        let msg = cat3(
            "slug '",
            article.slug.as_str(),
            "' is not well-formed (expected lowercase, alphanumeric, dash-separated)",
        );
        report.push("content.slug.wellformed", CheckStatus::Failed, msg.as_str());
    }
    match duplicate_of {
        Some(path) => {
            let msg = cat4("slug '", article.slug.as_str(), "' is already used by ", path);
            report.push("content.slug.duplicate", CheckStatus::Failed, msg.as_str());
        },
        None => {
            let msg = cat4("slug '", article.slug.as_str(), "' is unique under ", articles_dir);
            report.push("content.slug.duplicate", CheckStatus::Passed, msg.as_str());
        },
    }
    assert(report@ =~= start + slug_checks(
        *article,
        match duplicate_of {
            Some(p) => Some(p@),
            None => None,
        },
        articles_dir@,
    ));
}

// ── Cover image ──────────────────────────────────────────────────────────────

/// The checks `check_cover_image` adds.
pub open spec fn cover_checks(a: Article, local: Option<LocalCover>) -> Seq<CheckView> {
    match a.cover_image {
        None => seq![],
        Some(raw) => if is_hosted_url_spec(raw@) {
            seq![
                check_of(
                    "content.cover_image.resolves"@,
                    CheckStatus::Passed,
                    "cover_image is a hosted URL"@,
                ),
            ]
        } else {
            match local {
                Some(LocalCover::Unreadable { path, error }) => seq![
                    check_of(
                        "content.cover_image.resolves"@,
                        CheckStatus::Failed,
                        "cover_image '"@ + raw@
                            + "' looks like a local path but couldn't be read at "@ + path@
                            + ": "@ + error@,
                    ),
                ],
                Some(LocalCover::Readable { filename, escape }) => seq![
                    check_of(
                        "content.cover_image.resolves"@,
                        CheckStatus::Passed,
                        "cover_image resolves to local file "@ + filename@,
                    ),
                    match escape {
                        PathCheck::Within => check_of(
                            "content.cover_image.path_escape"@,
                            CheckStatus::Passed,
                            "cover_image path stays within the configured content roots"@,
                        ),
                        PathCheck::Escapes => check_of(
                            "content.cover_image.path_escape"@,
                            CheckStatus::Failed,
                            "cover_image '"@ + raw@ + "' escapes the configured content roots"@,
                        ),
                        PathCheck::Unresolved(e) => check_of(
                            "content.cover_image.path_escape"@,
                            CheckStatus::Failed,
                            "couldn't verify cover_image path: "@ + e@,
                        ),
                    },
                ],
                None => seq![],
            }
        },
    }
}

/// A cover image must be a hosted URL, or a readable local file inside the content roots.
pub fn check_cover_image(article: &Article, local: &Option<LocalCover>, report: &mut OutputReport)
    ensures
        final(report)@ == old(report)@ + cover_checks(*article, *local),
{
    let ghost start = report@;
    match &article.cover_image {
        None => {},
        Some(raw) => {
            if is_hosted_url(raw.as_str()) {
                report.push(
                    "content.cover_image.resolves",
                    CheckStatus::Passed,
                    "cover_image is a hosted URL",
                );
            } else {
                match local {
                    Some(LocalCover::Unreadable { path, error }) => {
                        let head = cat3(
                            "cover_image '",
                            raw.as_str(),
                            "' looks like a local path but couldn't be read at ",
                        );
                        let msg = cat4(head.as_str(), path.as_str(), ": ", error.as_str());
                        report.push("content.cover_image.resolves", CheckStatus::Failed, msg.as_str());
                    },
                    Some(LocalCover::Readable { filename, escape }) => {
                        let msg = cat("cover_image resolves to local file ", filename.as_str());
                        report.push("content.cover_image.resolves", CheckStatus::Passed, msg.as_str());
                        match escape {
                            PathCheck::Within => {
                                report.push(
                                    "content.cover_image.path_escape",
                                    CheckStatus::Passed,
                                    "cover_image path stays within the configured content roots",
                                );
                            },
                            PathCheck::Escapes => {
                                let msg = cat3(
                                    "cover_image '",
                                    raw.as_str(),
                                    "' escapes the configured content roots",
                                );
                                report.push(
                                    "content.cover_image.path_escape",
                                    CheckStatus::Failed,
                                    msg.as_str(),
                                );
                            },
                            PathCheck::Unresolved(e) => {
                                let msg = cat("couldn't verify cover_image path: ", e.as_str());
                                report.push(
                                    "content.cover_image.path_escape",
                                    CheckStatus::Failed,
                                    msg.as_str(),
                                );
                            },
                        }
                    },
                    None => {},
                }
            }
        },
    }
    assert(report@ =~= start + cover_checks(*article, *local));
}

// ── Body links ───────────────────────────────────────────────────────────────

/// The first occurrence of `pat` in `s` at or after index `i`.
pub open spec fn find_from(s: Seq<char>, pat: Seq<char>, i: int) -> Option<int>
    decreases s.len() + 1 - i,
{
    if i < 0 || i > s.len() {
        None
    } else if occurs_at(s, pat, i) {
        Some(i)
    } else {
        find_from(s, pat, i + 1)
    }
}

/// A found occurrence is at or after the starting index, and is an occurrence.
pub proof fn lemma_find_from(s: Seq<char>, pat: Seq<char>, i: int)
    ensures
        find_from(s, pat, i) matches Some(j) ==> i <= j && occurs_at(s, pat, j),
    decreases s.len() + 1 - i,
{
    if 0 <= i <= s.len() && !occurs_at(s, pat, i) {
        lemma_find_from(s, pat, i + 1);
    }
}

fn find_exec(s: &Vec<char>, pat: &Vec<char>, start: usize) -> (r: Option<usize>)
    requires
        start <= s.len(),
    ensures
        match r {
            Some(j) => find_from(s@, pat@, start as int) == Some(j as int),
            None => find_from(s@, pat@, start as int) is None,
        },
{
    let mut i: usize = start;
    while i < s.len()
        invariant
            start <= i <= s.len(),
            find_from(s@, pat@, start as int) == find_from(s@, pat@, i as int),
        decreases s.len() - i,
    {
        if matches_at(s, pat, i) {
            return Some(i);
        }
        i = i + 1;
    }
    if matches_at(s, pat, i) {
        return Some(i);
    }
    assert(find_from(s@, pat@, i + 1) is None);
    None
}

/// The link target inside `raw`: its first whitespace-separated word, or `raw` itself when it
/// has none.
pub open spec fn first_word(raw: Seq<char>) -> Seq<char> {
    if words_of(raw).len() > 0 {
        words_of(raw)[0]
    } else {
        raw
    }
}

/// Whether a link target looks like a local path: non-empty, not `http(s)://`, not `#anchor`.
pub open spec fn is_local_target(t: Seq<char>) -> bool {
    t.len() > 0 && !has_prefix(t, "http://"@) && !has_prefix(t, "https://"@) && !has_prefix(
        t,
        seq!['#'],
    )
}

/// The local targets of the Markdown links `[text](target)` / images `![alt](target)` of `b`
/// from index `cursor` on: each `](` is followed to the next `)`, and scanning resumes after it.
pub open spec fn links_from(b: Seq<char>, cursor: int) -> Seq<Seq<char>>
    decreases b.len() - cursor,
{
    if cursor < 0 || cursor > b.len() {
        seq![]
    } else {
        match find_from(b, seq![']', '('], cursor) {
            None => seq![],
            Some(i) => match find_from(b, seq![')'], i + 2) {
                None => seq![],
                Some(e) => {
                    proof {
                        lemma_find_from(b, seq![']', '('], cursor);
                        lemma_find_from(b, seq![')'], i + 2);
                    }
                    let t = first_word(b.subrange(i + 2, e));
                    (if is_local_target(t) {
                        seq![t]
                    } else {
                        seq![]
                    }) + links_from(b, e + 1)
                },
            },
        }
    }
}

/// The local link targets of a Markdown body.
pub open spec fn link_targets(body: Seq<char>) -> Seq<Seq<char>> {
    links_from(body, 0)
}

fn first_word_exec(raw: &Vec<char>) -> (r: Vec<char>)
    ensures
        r@ == first_word(raw@),
{
    let words = words_vec(raw);
    if words.len() > 0 {
        let w = words[0].clone();
        assert(w@ == views(words@)[0]);
        w
    } else {
        raw.clone()
    }
}

fn is_local_target_exec(t: &Vec<char>) -> (r: bool)
    ensures
        r == is_local_target(t@),
{
    let http = chars_of("http://");
    let https = chars_of("https://");
    let hash = vec!['#'];
    assert(hash@ =~= seq!['#']);
    if t.len() == 0 {
        return false;
    }
    let a = starts_with(t, &http);
    let b = starts_with(t, &https);
    let c = starts_with(t, &hash);
    !a && !b && !c
}

fn sub_chars(v: &Vec<char>, from: usize, to: usize) -> (r: Vec<char>)
    requires
        from <= to <= v.len(),
    ensures
        r@ == v@.subrange(from as int, to as int),
{
    let mut out: Vec<char> = Vec::new();
    let mut k: usize = from;
    while k < to
        invariant
            from <= k <= to <= v.len(),
            out@ == v@.subrange(from as int, k as int),
        decreases to - k,
    {
        out.push(v[k]);
        assert(out@ =~= v@.subrange(from as int, k + 1));
        k = k + 1;
    }
    out
}

/// Extracts Markdown `[text](target)`/`![alt](target)` targets that look like local paths (not
/// `http(s)://` or an in-page `#anchor`) — a plain substring scan, not a Markdown parse.
pub fn extract_local_link_targets(body: &str) -> (r: Vec<String>)
    ensures
        views_of_strings(r@) == link_targets(body@),
{
    let v = chars_of(body);
    let open_pat = vec![']', '('];
    let close_pat = vec![')'];
    let mut out: Vec<String> = Vec::new();
    let mut cursor: usize = 0;
    while cursor <= v.len()
        invariant
            v@ == body@,
            open_pat@ == seq![']', '('],
            close_pat@ == seq![')'],
            cursor <= v.len() + 1,
            views_of_strings(out@) + links_from(v@, cursor as int) == links_from(v@, 0),
        ensures
            views_of_strings(out@) == links_from(v@, 0),
        decreases v.len() + 1 - cursor,
    {
        let i = match find_exec(&v, &open_pat, cursor) {
            Some(i) => i,
            None => {
                assert(links_from(v@, cursor as int) =~= Seq::<Seq<char>>::empty());
                assert(views_of_strings(out@) + Seq::<Seq<char>>::empty() =~= views_of_strings(out@));
                break;
            },
        };
        proof {
            lemma_find_from(v@, open_pat@, cursor as int);
        }
        let e = match find_exec(&v, &close_pat, i + 2) {
            Some(e) => e,
            None => {
                assert(links_from(v@, cursor as int) =~= Seq::<Seq<char>>::empty());
                assert(views_of_strings(out@) + Seq::<Seq<char>>::empty() =~= views_of_strings(out@));
                break;
            },
        };
        proof {
            lemma_find_from(v@, close_pat@, i + 2);
        }
        let raw = sub_chars(&v, i + 2, e);
        let t = first_word_exec(&raw);
        let ghost before = out@;
        if is_local_target_exec(&t) {
            out.push(string_of(&t));
            assert(views_of_strings(out@) =~= views_of_strings(before) + seq![t@]);
        } else {
            assert(views_of_strings(out@) =~= views_of_strings(before) + Seq::<Seq<char>>::empty());
        }
        assert(views_of_strings(out@) + links_from(v@, e + 1) =~= views_of_strings(before)
            + links_from(v@, cursor as int));
        cursor = e + 1;
        if cursor > v.len() {
            assert(links_from(v@, cursor as int) =~= Seq::<Seq<char>>::empty());
            assert(views_of_strings(out@) + Seq::<Seq<char>>::empty() =~= views_of_strings(out@));
        }
    }
    out
}

/// The targets whose entry in `escapes` is `true` (a missing entry counts as `false`), in order.
pub open spec fn escaped_targets(ts: Seq<Seq<char>>, escapes: Seq<bool>) -> Seq<Seq<char>>
    decreases ts.len(),
{
    if ts.len() == 0 {
        seq![]
    } else {
        let i = ts.len() - 1;
        escaped_targets(ts.drop_last(), escapes) + (if i < escapes.len() && escapes[i] {
            seq![ts[i]]
        } else {
            seq![]
        })
    }
}

/// The checks `check_body_links` adds: none without local links, else whether any escapes.
pub open spec fn body_link_checks(a: Article, escapes: Seq<bool>) -> Seq<CheckView> {
    let ts = link_targets(a.content@);
    if ts.len() == 0 {
        seq![]
    } else {
        let esc = escaped_targets(ts, escapes);
        if esc.len() == 0 {
            seq![
                check_of(
                    "content.links.path_escape"@,
                    CheckStatus::Passed,
                    decimal(ts.len() as nat)
                        + " local link(s)/image(s) stay within the configured content roots"@,
                ),
            ]
        } else {
            seq![
                check_of(
                    "content.links.path_escape"@,
                    CheckStatus::Failed,
                    "local reference(s) escape the configured content roots: "@ + join_comma(esc),
                ),
            ]
        }
    }
}

/// Local links and images in the body must stay inside the content roots. `link_escapes[i]`
/// says whether the `i`-th target of `extract_local_link_targets` escapes them.
pub fn check_body_links(article: &Article, link_escapes: &Vec<bool>, report: &mut OutputReport)
    ensures
        final(report)@ == old(report)@ + body_link_checks(*article, link_escapes@),
{
    let ghost start = report@;
    let targets = extract_local_link_targets(article.content.as_str());
    let ghost ts = views_of_strings(targets@);
    if targets.len() == 0 {
        assert(report@ =~= start + body_link_checks(*article, link_escapes@));
        return ;
    }
    let mut list: Vec<char> = Vec::new();
    let mut count: usize = 0;
    let mut i: usize = 0;
    while i < targets.len()
        invariant
            ts == views_of_strings(targets@),
            i <= targets.len(),
            count == escaped_targets(ts.take(i as int), link_escapes@).len(),
            list@ == join_comma(escaped_targets(ts.take(i as int), link_escapes@)),
            count <= i,
        decreases targets.len() - i,
    {
        proof {
            assert(ts.take(i + 1).drop_last() =~= ts.take(i as int));
        }
        let ghost esc = escaped_targets(ts.take(i as int), link_escapes@);
        if i < link_escapes.len() && link_escapes[i] {
            proof {
                assert(esc.push(ts[i as int]).drop_last() =~= esc);
                assert(escaped_targets(ts.take(i + 1), link_escapes@) =~= esc.push(ts[i as int]));
            }
            if count > 0 {
                list.push(',');
                list.push(' ');
            }
            let tv = chars_of(targets[i].as_str());
            extend_chars(&mut list, &tv);
            count = count + 1;
        } else {
            assert(escaped_targets(ts.take(i + 1), link_escapes@) =~= esc);
        }
        i = i + 1;
    }
    assert(ts.take(targets.len() as int) =~= ts);
    if count == 0 {
        let msg = cat(
            decimal_string(targets.len() as u64).as_str(),
            " local link(s)/image(s) stay within the configured content roots",
        );
        report.push("content.links.path_escape", CheckStatus::Passed, msg.as_str());
    } else {
        let l = string_of(&list);
        let msg = cat("local reference(s) escape the configured content roots: ", l.as_str());
        report.push("content.links.path_escape", CheckStatus::Failed, msg.as_str());
    }
    assert(report@ =~= start + body_link_checks(*article, link_escapes@));
}

// ── Placeholders and schema version ──────────────────────────────────────────

/// Whether a text holds an unresolved `{{` or `}}`.
pub open spec fn has_braces(s: Seq<char>) -> bool {
    contains_seq(s, seq!['{', '{']) || contains_seq(s, seq!['}', '}'])
}

/// Whether the title, summary or body holds an unresolved placeholder.
pub open spec fn has_placeholder(a: Article) -> bool {
    (match a.title {
        Some(t) => has_braces(t@),
        None => false,
    }) || (match a.summary {
        Some(s) => has_braces(s@),
        None => false,
    }) || has_braces(a.content@)
}

/// The check `check_placeholders` adds.
pub open spec fn placeholder_checks(a: Article) -> Seq<CheckView> {
    if has_placeholder(a) {
        seq![
            check_of(
                "content.placeholder.unresolved"@,
                CheckStatus::Failed,
                "title/summary/body contains an unresolved {{ }} placeholder"@,
            ),
        ]
    } else {
        seq![
            check_of(
                "content.placeholder.unresolved"@,
                CheckStatus::Passed,
                "no unresolved placeholders found"@,
            ),
        ]
    }
}

fn braces_exec(s: &str) -> (r: bool)
    ensures
        r == has_braces(s@),
{
    let v = chars_of(s);
    let open2 = vec!['{', '{'];
    let close2 = vec!['}', '}'];
    contains(&v, &open2) || contains(&v, &close2)
}

/// Title, summary and body must hold no unresolved `{{ }}` placeholder.
pub fn check_placeholders(article: &Article, report: &mut OutputReport)
    ensures
        final(report)@ == old(report)@ + placeholder_checks(*article),
{
    let ghost start = report@;
    let in_title = match &article.title {
        Some(t) => braces_exec(t.as_str()),
        None => false,
    };
    let in_summary = match &article.summary {
        Some(s) => braces_exec(s.as_str()),
        None => false,
    };
    let in_body = braces_exec(article.content.as_str());
    if in_title || in_summary || in_body {
        report.push(
            "content.placeholder.unresolved",
            CheckStatus::Failed,
            "title/summary/body contains an unresolved {{ }} placeholder",
        );
    } else {
        report.push(
            "content.placeholder.unresolved",
            CheckStatus::Passed,
            "no unresolved placeholders found",
        );
    }
    assert(report@ =~= start + placeholder_checks(*article));
}

/// The check `check_schema_version` adds.
pub open spec fn schema_checks(a: Article) -> Seq<CheckView> {
    if a.schema_version == CURRENT_SCHEMA_VERSION {
        seq![
            check_of(
                "content.schema_version.supported"@,
                CheckStatus::Passed,
                "schema_version "@ + decimal(a.schema_version as nat) + " is supported"@,
            ),
        ]
    } else {
        seq![
            check_of(
                "content.schema_version.supported"@,
                CheckStatus::Failed,
                "schema_version "@ + decimal(a.schema_version as nat)
                    + " is not supported by this CLI (expected "@ + decimal(
                    CURRENT_SCHEMA_VERSION as nat,
                ) + ")"@,
            ),
        ]
    }
}

/// The article's `schema_version` must be the one this tool understands.
pub fn check_schema_version(article: &Article, report: &mut OutputReport)
    ensures
        final(report)@ == old(report)@ + schema_checks(*article),
{
    let ghost start = report@;
    let v = decimal_string(article.schema_version as u64);
    if article.schema_version == CURRENT_SCHEMA_VERSION {
        let msg = cat3("schema_version ", v.as_str(), " is supported");
        report.push("content.schema_version.supported", CheckStatus::Passed, msg.as_str());
    } else {
        let expected = decimal_string(CURRENT_SCHEMA_VERSION as u64);
        let head = cat3("schema_version ", v.as_str(), " is not supported by this CLI (expected ");
        let msg = cat3(head.as_str(), expected.as_str(), ")");
        report.push("content.schema_version.supported", CheckStatus::Failed, msg.as_str());
    }
    assert(report@ =~= start + schema_checks(*article));
}

// ── Validation ───────────────────────────────────────────────────────────────

/// Every check of the content-delivery schema, in order.
pub open spec fn validation_checks(a: Article, facts: ValidationFacts, base: Seq<char>) -> Seq<CheckView> {
    required_checks(a) + https_checks(a) + base_checks(a, base) + slug_checks(
        a,
        opt_view(facts.duplicate_of),
        facts.articles_dir@,
    ) + cover_checks(a, facts.local_cover) + body_link_checks(a, facts.link_escapes@)
        + placeholder_checks(a) + schema_checks(a)
}

/// Runs every offline validation rule and returns the full report — never short-circuits on
/// the first failure, so authors see every problem in one pass.
pub fn validate(article: &Article, facts: &ValidationFacts, canonical_base_url: &str) -> (r: OutputReport)
    requires
        facts_fit(*article, *facts),
    ensures
        r@ == validation_checks(*article, *facts, canonical_base_url@),
{
    let mut report = OutputReport::new();
    check_required(article, &mut report);
    check_canonical_url_https(article, &mut report);
    check_canonical_url_matches_base(article, canonical_base_url, &mut report);
    let dup = opt_str(&facts.duplicate_of);
    check_slug(article, dup, facts.articles_dir.as_str(), &mut report);
    check_cover_image(article, &facts.local_cover, &mut report);
    check_body_links(article, &facts.link_escapes, &mut report);
    check_placeholders(article, &mut report);
    check_schema_version(article, &mut report);
    assert(report@ =~= validation_checks(*article, *facts, canonical_base_url@));
    report
}

/// An ASCII slug passes the well-formedness check exactly when it is lowercase letters and
/// digits in dash-separated groups (non-empty, no leading, trailing or doubled dash).
pub proof fn law_slug_check_means_slug_shape(slug: Seq<char>)
    requires
        all_ascii(slug),
    ensures
        slug_well_formed(slug) <==> (slug.len() > 0 && is_slug(slug)),
{
    if slug.len() > 0 && is_slug(slug) {
        law_slug_fixed_point(slug);
    }
    if slug_well_formed(slug) {
        law_slug_well_formed(slug);
    }
}

/// Validation reports failure when the article has no title, no summary, no canonical URL, no
/// tag, or a blank body — whatever the rest of the article and the file system say.
pub proof fn law_missing_required_field_fails(a: Article, facts: ValidationFacts, base: Seq<char>)
    requires
        !is_present(opt_view(a.title)) || !is_present(opt_view(a.summary)) || !is_present(
            opt_view(a.canonical_url),
        ) || a.tags.len() == 0 || trim_spec(a.content@).len() == 0,
    ensures
        !none_failed(validation_checks(a, facts, base)),
{
    let cs = validation_checks(a, facts, base);
    let req = required_checks(a);
    assert(cs.subrange(0, 5) =~= req) by {
        assert forall|i: int| 0 <= i < 5 implies cs[i] == req[i] by {
        }
    }
    if !is_present(opt_view(a.title)) {
        assert(cs[0].status == CheckStatus::Failed);
    } else if !is_present(opt_view(a.summary)) {
        assert(cs[1].status == CheckStatus::Failed);
    } else if !is_present(opt_view(a.canonical_url)) {
        assert(cs[2].status == CheckStatus::Failed);
    } else if a.tags.len() == 0 {
        assert(cs[3].status == CheckStatus::Failed);
    } else {
        assert(cs[4].status == CheckStatus::Failed);
    }
}


/// What every local link target is: non-empty, and neither a hosted `http://` / `https://`
/// URL nor an in-page `#anchor`.
pub open spec fn plainly_local(t: Seq<char>) -> bool {
    &&& t.len() > 0
    &&& !has_prefix(t, "http://"@)
    &&& !has_prefix(t, "https://"@)
    &&& !has_prefix(t, "#"@)
}

proof fn lemma_links_from_local(b: Seq<char>, cursor: int)
    ensures
        forall|k: int| 0 <= k < links_from(b, cursor).len() ==> plainly_local(#[trigger] links_from(b, cursor)[k]),
    decreases b.len() - cursor,
{
    reveal_strlit("#");
    assert("#"@ =~= seq!['#']);
    if 0 <= cursor <= b.len() {
        match find_from(b, seq![']', '('], cursor) {
            None => {},
            Some(i) => match find_from(b, seq![')'], i + 2) {
                None => {},
                Some(e) => {
                    lemma_find_from(b, seq![']', '('], cursor);
                    lemma_find_from(b, seq![')'], i + 2);
                    lemma_links_from_local(b, e + 1);
                    let t = first_word(b.subrange(i + 2, e));
                    let head = if is_local_target(t) {
                        seq![t]
                    } else {
                        Seq::<Seq<char>>::empty()
                    };
                    let rest = links_from(b, e + 1);
                    assert(links_from(b, cursor) == head + rest);
                    assert forall|k: int| 0 <= k < links_from(b, cursor).len() implies plainly_local(
                        #[trigger] links_from(b, cursor)[k],
                    ) by {
                        if k < head.len() {
                            assert(links_from(b, cursor)[k] == t);
                        } else {
                            assert(links_from(b, cursor)[k] == rest[k - head.len()]);
                        }
                    }
                },
            },
        }
    }
}

/// No local link target of a body is a hosted URL (`http://`, `https://`), an in-page
/// `#anchor` or empty: a body whose links all point at such targets has none.
pub proof fn law_link_targets_are_local(body: Seq<char>)
    ensures
        forall|k: int| 0 <= k < link_targets(body).len() ==> plainly_local(#[trigger] link_targets(body)[k]),
{
    lemma_links_from_local(body, 0);
}

proof fn lemma_failure_spreads(a: Seq<CheckView>, b: Seq<CheckView>)
    ensures
        (!none_failed(a) || !none_failed(b)) ==> !none_failed(a + b),
{
    if !none_failed(a) {
        let i = choose|i: int| 0 <= i < a.len() && a[i].status == CheckStatus::Failed;
        assert((a + b)[i] == a[i]);
    } else if !none_failed(b) {
        let i = choose|i: int| 0 <= i < b.len() && b[i].status == CheckStatus::Failed;
        assert((a + b)[a.len() + i] == b[i]);
    }
}

/// Validation reports failure when a present, non-blank canonical URL is not `https://`
/// followed by something or does not start with the configured base URL, when the title,
/// summary or body holds an unresolved `{{` or `}}`, or when the schema version is not `1`,
/// whatever the rest of the article and the file system say.
pub proof fn law_rule_violations_fail(a: Article, facts: ValidationFacts, base: Seq<char>)
    requires
        (a.canonical_url matches Some(u) && !all_space(u@) && !(has_prefix(u@, "https://"@) && u@.len() > 8))
            || (a.canonical_url matches Some(u) && !all_space(u@) && !has_prefix(u@, base))
            || contains_seq(a.content@, seq!['{', '{']) || contains_seq(a.content@, seq!['}', '}'])
            || (a.title matches Some(t) && (contains_seq(t@, seq!['{', '{']) || contains_seq(t@, seq!['}', '}'])))
            || (a.summary matches Some(t) && (contains_seq(t@, seq!['{', '{']) || contains_seq(t@, seq!['}', '}'])))
            || a.schema_version != 1,
    ensures
        !none_failed(validation_checks(a, facts, base)),
{
    let r = required_checks(a);
    let h = https_checks(a);
    let bc = base_checks(a, base);
    let sl = slug_checks(a, opt_view(facts.duplicate_of), facts.articles_dir@);
    let cv = cover_checks(a, facts.local_cover);
    let bl = body_link_checks(a, facts.link_escapes@);
    let ph = placeholder_checks(a);
    let sc = schema_checks(a);
    if a.schema_version != 1 {
        assert(sc[0].status == CheckStatus::Failed);
    } else if has_placeholder(a) {
        assert(ph[0].status == CheckStatus::Failed);
    } else {
        let u = a.canonical_url->0;
        assert(usable_url(a) == Some(u@));
        if !(has_prefix(u@, "https://"@) && u@.len() > 8) {
            assert(h[0].status == CheckStatus::Failed);
        } else {
            assert(bc[0].status == CheckStatus::Failed);
        }
    }
    lemma_failure_spreads(r, h);
    lemma_failure_spreads(r + h, bc);
    lemma_failure_spreads(r + h + bc, sl);
    lemma_failure_spreads(r + h + bc + sl, cv);
    lemma_failure_spreads(r + h + bc + sl + cv, bl);
    lemma_failure_spreads(r + h + bc + sl + cv + bl, ph);
    lemma_failure_spreads(r + h + bc + sl + cv + bl + ph, sc);
}

/// An article whose canonical URL is `https://` followed by something under the configured base
/// URL, which holds no `{{` or `}}` in its title, summary or body, and whose schema version is
/// `1`, passes those rules: none of their checks fails.
pub proof fn law_clean_article_passes_those_rules(a: Article, base: Seq<char>, u: String)
    requires
        a.canonical_url == Some(u),
        !all_space(u@),
        has_prefix(u@, "https://"@),
        u@.len() > 8,
        has_prefix(u@, base),
        !contains_seq(a.content@, seq!['{', '{']),
        !contains_seq(a.content@, seq!['}', '}']),
        a.title matches Some(t) ==> !contains_seq(t@, seq!['{', '{']) && !contains_seq(t@, seq!['}', '}']),
        a.summary matches Some(t) ==> !contains_seq(t@, seq!['{', '{']) && !contains_seq(t@, seq!['}', '}']),
        a.schema_version == 1,
    ensures
        none_failed(https_checks(a)),
        none_failed(base_checks(a, base)),
        none_failed(placeholder_checks(a)),
        none_failed(schema_checks(a)),
{
    assert(usable_url(a) == Some(u@));
    assert(!has_placeholder(a));
}

} // verus!
