//! A blog with a dedicated create/update API: JSON body, bearer auth, `POST <path>` to create
//! and `PUT <path>?slug=...` to update.

use crate::publish::article::Article;
use crate::publish::config::PlatformConfig;
use crate::publish::cover_image::{CoverImage, LocalImage};
use crate::publish::reply::{is_success, is_success_spec, HttpReply};
use crate::publish::target::{HttpTarget, PublishOutcome};
use crate::text::{cat, cat3, chars_of, owned, string_of};
use vstd::prelude::*;

verus! {

pub const DEFAULT_PATH: &'static str = "/admin/blog";

pub struct Platform {
    pub token: String,
    /// Always starts with `/`.
    pub path: String,
    pub body_command: Option<String>,
    pub http: HttpTarget,
}

#[derive(Clone, Copy, Debug, PartialEq, Eq, Structural)]
pub enum Method {
    Post,
    Put,
}

/// Where the request body comes from.
#[derive(Debug)]
pub enum BodySource {
    /// The stdout of this shell command, fed the article and `update` as JSON on stdin.
    Command(String),
    /// The built-in field mapping (`blog_post_request`).
    Fields,
}

/// The request `prepare` settles on before anything runs or is sent.
#[derive(Debug)]
pub struct PreparedRequest {
    pub method: Method,
    /// `endpoint` (without trailing slashes) followed by the path.
    pub url: String,
    /// The `slug` query parameter, sent with an update.
    pub slug_query: Option<String>,
    pub update: bool,
    pub body: BodySource,
}

/// The built-in request body.
pub struct BlogPostRequest {
    pub slug: String,
    pub title: String,
    pub date: String,
    pub summary: String,
    pub excerpt: Option<String>,
    pub tags: Vec<String>,
    /// Set when the cover image is an already-hosted URL.
    pub cover_image: Option<String>,
    /// These three are set together, only when the cover image is a local file, which the
    /// server decodes and uploads itself.
    pub cover_image_filename: Option<String>,
    pub cover_image_data: Option<String>,
    pub cover_image_content_type: Option<&'static str>,
    pub content: String,
}

/// `s.trim_end_matches('/')`.
pub open spec fn trim_slashes_end(s: Seq<char>) -> Seq<char>
    decreases s.len(),
{
    if s.len() > 0 && s.last() == '/' {
        trim_slashes_end(s.drop_last())
    } else {
        s
    }
}

/// The configured path (or `/admin/blog`), with a leading `/` added when it has none.
pub open spec fn normalized_path(path: Option<Seq<char>>) -> Seq<char> {
    let p = match path {
        Some(p) => p,
        None => DEFAULT_PATH@,
    };
    if p.len() > 0 && p[0] == '/' {
        p
    } else {
        "/"@ + p
    }
}

fn trim_end_slashes(s: &str) -> (r: String)
    ensures
        r@ == trim_slashes_end(s@),
{
    let v = chars_of(s);
    let mut n: usize = v.len();
    assert(v@.take(n as int) =~= v@);
    while n > 0 && v[n - 1] == '/'
        invariant
            n <= v.len(),
            v@ == s@,
            trim_slashes_end(s@) == trim_slashes_end(v@.take(n as int)),
        decreases n,
    {
        assert(v@.take(n as int).drop_last() =~= v@.take(n - 1));
        n = n - 1;
    }
    let mut out: Vec<char> = Vec::new();
    let mut k: usize = 0;
    while k < n
        invariant
            k <= n <= v.len(),
            out@ == v@.take(k as int),
        decreases n - k,
    {
        out.push(v[k]);
        assert(out@ =~= v@.take(k + 1));
        k = k + 1;
    }
    string_of(&out)
}

impl Platform {
    pub fn new(client: reqwest::Client, cfg: &PlatformConfig) -> (r: Self)
        ensures
            r.token == cfg.token,
            r.path@ == normalized_path(
                match cfg.path {
                    Some(p) => Some(p@),
                    None => None,
                },
            ),
            r.body_command == cfg.body_command,
            r.http.base_url@ == trim_slashes_end(cfg.endpoint@),
    {
        proof {
            reveal_strlit("/");
        }
        let path = match &cfg.path {
            Some(p) => p.clone(),
            None => owned(DEFAULT_PATH),
        };
        let pv = chars_of(path.as_str());
        let path = if pv.len() > 0 && pv[0] == '/' {
            path
        } else {
            cat("/", path.as_str())
        };
        let body_command = match &cfg.body_command {
            Some(c) => Some(c.clone()),
            None => None,
        };
        Platform {
            token: cfg.token.clone(),
            path,
            body_command,
            http: HttpTarget::new(client, trim_end_slashes(cfg.endpoint.as_str())),
        }
    }

    /// The request `prepare` settles on for `article`.
    pub open spec fn prepared_as(self, article: Article, update: bool, p: PreparedRequest) -> bool {
        &&& p.method == (if update { Method::Put } else { Method::Post })
        &&& p.url@ == self.http.base_url@ + self.path@
        &&& p.slug_query == (if update { Some(article.slug) } else { None })
        &&& p.update == update
        &&& match (self.body_command, p.body) {
            (Some(c), BodySource::Command(d)) => c == d,
            (None, BodySource::Fields) => true,
            _ => false,
        }
    }

    /// Any article can be published here, created or updated, and a local cover image is
    /// uploaded with it; this settles the method, the URL and where the body comes from.
    pub fn prepare(&self, article: &Article, update: bool) -> (r: PreparedRequest)
        ensures
            self.prepared_as(*article, update, r),
    {
        let body = match &self.body_command {
            Some(c) => BodySource::Command(c.clone()),
            None => BodySource::Fields,
        };
        PreparedRequest {
            method: if update {
                Method::Put
            } else {
                Method::Post
            },
            url: cat(self.http.base_url.as_str(), self.path.as_str()),
            slug_query: if update {
                Some(article.slug.clone())
            } else {
                None
            },
            update,
            body,
        }
    }
}

/// The built-in body for `article` whose cover image resolved to `cover`: a hosted URL goes
/// in `coverImage`, a local file in the three upload fields.
pub fn blog_post_request(article: &Article, cover: Option<CoverImage>) -> (r: BlogPostRequest)
    ensures
        r.slug == article.slug,
        r.title == article.title,
        r.date == article.date,
        r.summary == article.summary,
        r.excerpt == article.excerpt,
        r.tags@ == article.tags@,
        r.content == article.content,
        match cover {
            None => r.cover_image is None && r.cover_image_filename is None
                && r.cover_image_data is None && r.cover_image_content_type is None,
            Some(CoverImage::Url(u)) => r.cover_image == Some(u) && r.cover_image_filename is None
                && r.cover_image_data is None && r.cover_image_content_type is None,
            Some(CoverImage::Local(img)) => r.cover_image is None && r.cover_image_filename == Some(
                img.filename,
            ) && r.cover_image_data == Some(img.base64_data) && r.cover_image_content_type == Some(
                img.content_type,
            ),
        },
{
    let (cover_image, cover_image_filename, cover_image_data, cover_image_content_type) =
        match cover {
        Some(CoverImage::Url(url)) => (Some(url), None, None, None),
        Some(CoverImage::Local(img)) => {
            let LocalImage { filename, content_type, base64_data } = img;
            (None, Some(filename), Some(base64_data), Some(content_type))
        },
        None => (None, None, None, None),
    };
    BlogPostRequest {
        slug: article.slug.clone(),
        title: article.title.clone(),
        date: article.date.clone(),
        summary: article.summary.clone(),
        excerpt: match &article.excerpt {
            Some(e) => Some(e.clone()),
            None => None,
        },
        tags: copy_tags(&article.tags),
        cover_image,
        cover_image_filename,
        cover_image_data,
        cover_image_content_type,
        content: article.content.clone(),
    }
}

fn copy_tags(v: &Vec<String>) -> (r: Vec<String>)
    ensures
        r@ == v@,
{
    let mut out: Vec<String> = Vec::new();
    let mut i: usize = 0;
    while i < v.len()
        invariant
            i <= v.len(),
            out@ == v@.take(i as int),
        decreases v.len() - i,
    {
        out.push(v[i].clone());
        assert(out@ =~= v@.take(i + 1));
        i = i + 1;
    }
    assert(v@.take(v.len() as int) =~= v@);
    out
}

pub open spec fn conflict_message(slug: Seq<char>) -> Seq<char> {
    "slug '"@ + slug + "' already exists on the platform blog — rerun with --update to overwrite it"@
}

/// What the blog's reply means for the post `slug`: created or updated, or why it failed.
pub open spec fn platform_outcome(reply: HttpReply, slug: Seq<char>, update: bool) -> Result<
    Seq<char>,
    Seq<char>,
> {
    if reply.status == 409 {
        Err(conflict_message(slug))
    } else if !is_success_spec(reply.status) {
        Err("platform returned "@ + reply.status_text@ + ": "@ + reply.body@)
    } else if update {
        Ok("updated"@)
    } else {
        Ok("created"@)
    }
}

/// Reads the blog's reply: `409 Conflict` means the slug is taken (rerun with `--update`),
/// another non-2xx status is an error, and success reports whether the post was created or
/// updated.
pub fn interpret_reply(reply: &HttpReply, slug: &str, update: bool) -> (r: Result<
    PublishOutcome,
    String,
>)
    ensures
        match (r, platform_outcome(*reply, slug@, update)) {
            (Ok(o), Ok(m)) => o.message@ == m,
            (Err(e), Err(m)) => e@ == m,
            _ => false,
        },
{
    if reply.status == 409 {
        return Err(cat3(
            "slug '",
            slug,
            "' already exists on the platform blog — rerun with --update to overwrite it",
        ));
    }
    if !is_success(reply.status) {
        let head = cat3("platform returned ", reply.status_text.as_str(), ": ");
        return Err(cat(head.as_str(), reply.body.as_str()));
    }
    Ok(PublishOutcome { message: if update { owned("updated") } else { owned("created") } })
}

/// The request path always starts with `/`, and a configured path that already does is kept
/// as it is.
pub proof fn law_path_starts_with_slash(path: Option<Seq<char>>)
    ensures
        normalized_path(path).len() > 0,
        normalized_path(path)[0] == '/',
        (path matches Some(p) && p.len() > 0 && p[0] == '/') ==> normalized_path(path) == path->0,
{
    reveal_strlit("/admin/blog");
    reveal_strlit("/");
}


/// Trimming a base URL drops exactly its trailing `/`s: what is left is the start of the URL,
/// and it does not end in `/`.
pub proof fn law_trim_slashes_end_drops_trailing_slashes(s: Seq<char>)
    ensures
        trim_slashes_end(s).len() <= s.len(),
        trim_slashes_end(s) == s.take(trim_slashes_end(s).len() as int),
        forall|j: int| trim_slashes_end(s).len() <= j < s.len() ==> s[j] == '/',
        trim_slashes_end(s).len() == 0 || trim_slashes_end(s).last() != '/',
    decreases s.len(),
{
    if s.len() > 0 && s.last() == '/' {
        law_trim_slashes_end_drops_trailing_slashes(s.drop_last());
        let t = trim_slashes_end(s.drop_last());
        assert(s.drop_last().take(t.len() as int) =~= s.take(t.len() as int));
        assert forall|j: int| t.len() <= j < s.len() implies s[j] == '/' by {
            if j < s.len() - 1 {
                assert(s.drop_last()[j] == s[j]);
            }
        }
    } else {
        assert(s.take(s.len() as int) =~= s);
    }
}

} // verus!
