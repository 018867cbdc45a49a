//! Dev.to: one POST of the article to `/api/articles`, authenticated by an API key.

use crate::publish::article::Article;
use crate::publish::config::DevToConfig;
use crate::publish::cover_image::{is_hosted_url_spec, not_supported_message, resolve_url_only};
use crate::publish::reply::{found_view, is_success, is_success_spec, json_at, json_lookup, HttpReply};
use crate::publish::target::{HttpTarget, PublishOutcome};
use crate::text::{cat, cat4, join_first, join_sep, owned};
use vstd::prelude::*;

verus! {

pub const DEVTO_BASE_URL: &'static str = "https://dev.to";

pub const UPDATE_UNSUPPORTED: &'static str = "the devto target doesn't support --update yet";

pub struct DevTo {
    pub api_key: String,
    pub http: HttpTarget,
}

/// Everything the request needs, computed once by `prepare` before anything is sent.
#[derive(Debug)]
pub struct PreparedRequest {
    pub title: String,
    pub body_markdown: String,
    pub description: String,
    /// Dev.to takes a comma-separated string of at most four tags.
    pub tags: String,
    pub main_image: Option<String>,
    pub canonical_url: Option<String>,
}

/// The `article` object of the request body.
pub struct ArticleFields {
    pub title: String,
    pub body_markdown: String,
    pub published: bool,
    pub description: String,
    pub tags: String,
    pub main_image: Option<String>,
    pub canonical_url: Option<String>,
}

pub open spec fn opt_chars(o: Option<String>) -> Option<Seq<char>> {
    match o {
        Some(s) => Some(s@),
        None => None,
    }
}

/// The first four tags, comma-separated.
pub open spec fn devto_tags(tags: Seq<String>) -> Seq<char> {
    let n = if tags.len() < 4 { tags.len() as int } else { 4 };
    join_sep(tags.map_values(|s: String| s@).take(n), ","@)
}

fn clone_opt(o: &Option<String>) -> (r: Option<String>)
    ensures
        r == *o,
{
    match o {
        Some(s) => Some(s.clone()),
        None => None,
    }
}

impl DevTo {
    pub fn new(client: reqwest::Client, cfg: &DevToConfig) -> (r: Self)
        ensures
            r.api_key == cfg.api_key,
            r.http.base_url@ == DEVTO_BASE_URL@,
    {
        Self::with_base_url(client, cfg, DEVTO_BASE_URL)
    }

    pub fn with_base_url(client: reqwest::Client, cfg: &DevToConfig, base_url: &str) -> (r: Self)
        ensures
            r.api_key == cfg.api_key,
            r.http.base_url@ == base_url@,
    {
        DevTo { api_key: cfg.api_key.clone(), http: HttpTarget::new(client, owned(base_url)) }
    }

    /// `--update` is refused: Dev.to posts can only be created.
    pub fn check_update_supported(update: bool) -> (r: Result<(), String>)
        ensures
            update <==> r is Err,
            r matches Err(e) ==> e@ == UPDATE_UNSUPPORTED@,
    {
        if update {
            return Err(owned(UPDATE_UNSUPPORTED));
        }
        Ok(())
    }

    /// Why `prepare` refuses `article`, if it does: `--update` first, then a local cover image.
    pub open spec fn prepare_error(self, article: Article, update: bool) -> Option<Seq<char>> {
        if update {
            Some(UPDATE_UNSUPPORTED@)
        } else {
            match article.cover_image {
                Some(c) => if is_hosted_url_spec(c@) {
                    None
                } else {
                    Some(not_supported_message("devto"@))
                },
                None => None,
            }
        }
    }

    /// `p` is the request `prepare` builds for `article`.
    pub open spec fn prepared_as(self, article: Article, p: PreparedRequest) -> bool {
        &&& p.title == article.title
        &&& p.body_markdown == article.content
        &&& p.description == article.summary
        &&& p.tags@ == devto_tags(article.tags@)
        &&& opt_chars(p.main_image) == opt_chars(article.cover_image)
        &&& p.canonical_url == article.canonical_url
    }

    /// Checks `--update` support and the cover image, and builds the exact request, without
    /// any network access.
    pub fn prepare(&self, article: &Article, update: bool) -> (r: Result<PreparedRequest, String>)
        ensures
            match r {
                Ok(p) => self.prepare_error(*article, update) is None && self.prepared_as(*article, p),
                Err(e) => self.prepare_error(*article, update) == Some(e@),
            },
    {
        Self::check_update_supported(update)?;
        let cover = match &article.cover_image {
            Some(c) => Some(c.as_str()),
            None => None,
        };
        let main_image = resolve_url_only(cover, "devto")?;
        let n = if article.tags.len() < 4 {
            article.tags.len()
        } else {
            4
        };
        Ok(PreparedRequest {
            title: article.title.clone(),
            body_markdown: article.content.clone(),
            description: article.summary.clone(),
            tags: join_first(&article.tags, n, ","),
            main_image,
            canonical_url: clone_opt(&article.canonical_url),
        })
    }

    /// The `article` object sent for `prepared`: published immediately.
    pub fn article_fields(prepared: PreparedRequest) -> (r: ArticleFields)
        ensures
            r.title == prepared.title,
            r.body_markdown == prepared.body_markdown,
            r.published,
            r.description == prepared.description,
            r.tags == prepared.tags,
            r.main_image == prepared.main_image,
            r.canonical_url == prepared.canonical_url,
    {
        ArticleFields {
            title: prepared.title,
            body_markdown: prepared.body_markdown,
            published: true,
            description: prepared.description,
            tags: prepared.tags,
            main_image: prepared.main_image,
            canonical_url: prepared.canonical_url,
        }
    }

    /// The URL the article is posted to.
    pub fn articles_url(&self) -> (r: String)
        ensures
            r@ == self.http.base_url@ + "/api/articles"@,
    {
        cat(self.http.base_url.as_str(), "/api/articles")
    }
}

/// What Dev.to's reply to the post means: the published article's URL, or why it failed.
pub open spec fn devto_outcome(reply: HttpReply) -> Result<Seq<char>, Seq<char>> {
    let st = reply.status_text@;
    let body = reply.body@;
    if !is_success_spec(reply.status) {
        Err("dev.to returned "@ + st + ": "@ + body)
    } else {
        match json_at(body, "/url"@) {
            None => Err("dev.to returned "@ + st + " but the response body wasn't valid JSON: "@ + body),
            Some(Some((_, Some(url)))) => Ok(url),
            Some(_) => Err("dev.to returned "@ + st + " but no \"url\" field in the response: "@ + body),
        }
    }
}

/// Reads Dev.to's reply to the post: a non-2xx status, a body that is not JSON, or one without
/// a string `url` field is an error; otherwise the outcome is that URL.
pub fn interpret_reply(reply: &HttpReply) -> (r: Result<PublishOutcome, String>)
    ensures
        match (r, devto_outcome(*reply)) {
            (Ok(o), Ok(u)) => o.message@ == u,
            (Err(e), Err(m)) => e@ == m,
            _ => false,
        },
{
    let st = reply.status_text.as_str();
    let body = reply.body.as_str();
    if !is_success(reply.status) {
        return Err(cat4("dev.to returned ", st, ": ", body));
    }
    let found = json_lookup(body, "/url");
    match found {
        None => Err(cat4("dev.to returned ", st, " but the response body wasn't valid JSON: ", body)),
        Some(Some((_, Some(url)))) => Ok(PublishOutcome { message: url }),
        Some(_) => Err(cat4("dev.to returned ", st, " but no \"url\" field in the response: ", body)),
    }
}

} // verus!
