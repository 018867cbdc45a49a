//! Hashnode: one GraphQL `publishPost` mutation, authenticated by a personal access token.

use crate::markdown::{slug_of, slugify};
use crate::publish::article::Article;
use crate::publish::config::HashnodeConfig;
use crate::publish::cover_image::{is_hosted_url_spec, not_supported_message, resolve_url_only};
use crate::publish::reply::{is_success, is_success_spec, json_at, json_lookup, HttpReply};
use crate::publish::target::{HttpTarget, PublishOutcome};
use crate::publish::targets::devto::opt_chars;
use crate::text::{cat, cat4, owned};
use vstd::prelude::*;

verus! {

pub const HASHNODE_ENDPOINT: &'static str = "https://gql.hashnode.com";

pub const UPDATE_UNSUPPORTED: &'static str = "the hashnode target doesn't support --update yet";

pub const PUBLISH_POST_MUTATION: &'static str = "
mutation PublishPost($input: PublishPostInput!) {
  publishPost(input: $input) {
    post { id url }
  }
}
";

pub struct Hashnode {
    pub token: String,
    pub publication_id: String,
    pub http: HttpTarget,
}

/// A tag as Hashnode takes it: its name and the slug derived from it.
pub struct Tag {
    pub name: String,
    pub slug: String,
}

/// Everything the request needs, computed once by `prepare` before anything is sent.
#[derive(Debug)]
pub struct PreparedRequest {
    pub title: String,
    pub content_markdown: String,
    pub tags: Vec<String>,
    pub slug: String,
    pub cover_image_url: Option<String>,
}

/// The `input` variable of the mutation.
pub struct PublishPostInput {
    pub title: String,
    pub content_markdown: String,
    pub publication_id: String,
    pub tags: Vec<Tag>,
    pub slug: String,
    pub cover_image_url: Option<String>,
}

impl Hashnode {
    pub fn new(client: reqwest::Client, cfg: &HashnodeConfig) -> (r: Self)
        ensures
            r.token == cfg.token,
            r.publication_id == cfg.publication_id,
            r.http.base_url@ == HASHNODE_ENDPOINT@,
    {
        Self::with_endpoint(client, cfg, HASHNODE_ENDPOINT)
    }

    pub fn with_endpoint(client: reqwest::Client, cfg: &HashnodeConfig, endpoint: &str) -> (r: Self)
        ensures
            r.token == cfg.token,
            r.publication_id == cfg.publication_id,
            r.http.base_url@ == endpoint@,
    {
        Hashnode {
            token: cfg.token.clone(),
            publication_id: cfg.publication_id.clone(),
            http: HttpTarget::new(client, owned(endpoint)),
        }
    }

    /// `--update` is refused: Hashnode posts can only be created.
    pub fn check_update_supported(update: bool) -> (r: Result<(), String>)
        ensures
            update <==> r is Err,
            r matches Err(e) ==> e@ == UPDATE_UNSUPPORTED@,
    {
        if update {
            return Err(owned(UPDATE_UNSUPPORTED));
        }
        Ok(())
    }

    /// Why `prepare` refuses `article`, if it does: `--update` first, then a local cover image.
    pub open spec fn prepare_error(self, article: Article, update: bool) -> Option<Seq<char>> {
        if update {
            Some(UPDATE_UNSUPPORTED@)
        } else {
            match article.cover_image {
                Some(c) => if is_hosted_url_spec(c@) {
                    None
                } else {
                    Some(not_supported_message("hashnode"@))
                },
                None => None,
            }
        }
    }

    /// `p` is the request `prepare` builds for `article`.
    pub open spec fn prepared_as(self, article: Article, p: PreparedRequest) -> bool {
        &&& p.title == article.title
        &&& p.content_markdown == article.content
        &&& p.tags@.map_values(|s: String| s@) == article.tags@.map_values(|s: String| s@)
        &&& p.slug == article.slug
        &&& opt_chars(p.cover_image_url) == opt_chars(article.cover_image)
    }

    /// Checks `--update` support and the cover image, and builds the exact request, without
    /// any network access.
    pub fn prepare(&self, article: &Article, update: bool) -> (r: Result<PreparedRequest, String>)
        ensures
            match r {
                Ok(p) => self.prepare_error(*article, update) is None && self.prepared_as(*article, p),
                Err(e) => self.prepare_error(*article, update) == Some(e@),
            },
    {
        Self::check_update_supported(update)?;
        let cover = match &article.cover_image {
            Some(c) => Some(c.as_str()),
            None => None,
        };
        let cover_image_url = resolve_url_only(cover, "hashnode")?;
        Ok(PreparedRequest {
            title: article.title.clone(),
            content_markdown: article.content.clone(),
            tags: copy_strings(&article.tags),
            slug: article.slug.clone(),
            cover_image_url,
        })
    }

    /// The mutation's input for `prepared`: each tag goes with its slug, and the post goes to
    /// this target's publication.
    pub fn publish_input(&self, prepared: PreparedRequest) -> (r: PublishPostInput)
        ensures
            r.title == prepared.title,
            r.content_markdown == prepared.content_markdown,
            r.publication_id == self.publication_id,
            r.slug == prepared.slug,
            r.cover_image_url == prepared.cover_image_url,
            r.tags.len() == prepared.tags.len(),
            forall|i: int|
                0 <= i < r.tags.len() ==> (#[trigger] r.tags@[i]).name == prepared.tags@[i]
                    && r.tags@[i].slug@ == slug_of(prepared.tags@[i]@),
    {
        let tags = tags_of(&prepared.tags);
        PublishPostInput {
            title: prepared.title,
            content_markdown: prepared.content_markdown,
            publication_id: self.publication_id.clone(),
            tags,
            slug: prepared.slug,
            cover_image_url: prepared.cover_image_url,
        }
    }

    /// The `Authorization` header value.
    pub fn authorization(&self) -> (r: String)
        ensures
            r@ == "Bearer "@ + self.token@,
    {
        cat("Bearer ", self.token.as_str())
    }
}

fn copy_strings(v: &Vec<String>) -> (r: Vec<String>)
    ensures
        r@ == v@,
{
    let mut out: Vec<String> = Vec::new();
    let mut i: usize = 0;
    while i < v.len()
        invariant
            i <= v.len(),
            out@ == v@.take(i as int),
        decreases v.len() - i,
    {
        out.push(v[i].clone());
        assert(out@ =~= v@.take(i + 1));
        i = i + 1;
    }
    assert(v@.take(v.len() as int) =~= v@);
    out
}

/// Each tag with its slug.
pub fn tags_of(names: &Vec<String>) -> (r: Vec<Tag>)
    ensures
        r.len() == names.len(),
        forall|i: int|
            0 <= i < r.len() ==> (#[trigger] r@[i]).name == names@[i] && r@[i].slug@ == slug_of(
                names@[i]@,
            ),
{
    let mut out: Vec<Tag> = Vec::new();
    let mut i: usize = 0;
    while i < names.len()
        invariant
            i <= names.len(),
            out.len() == i,
            forall|j: int|
                0 <= j < i ==> (#[trigger] out@[j]).name == names@[j] && out@[j].slug@ == slug_of(
                    names@[j]@,
                ),
        decreases names.len() - i,
    {
        let name = names[i].clone();
        let slug = slugify(name.as_str());
        out.push(Tag { name, slug });
        i = i + 1;
    }
    out
}

/// What Hashnode's reply to the mutation means: the post's URL, or why it failed.
pub open spec fn hashnode_outcome(reply: HttpReply) -> Result<Seq<char>, Seq<char>> {
    let st = reply.status_text@;
    let body = reply.body@;
    if !is_success_spec(reply.status) {
        Err("hashnode returned "@ + st + ": "@ + body)
    } else {
        match json_at(body, "/errors"@) {
            None => Err(
                "hashnode returned "@ + st + " but the response body wasn't valid JSON: "@ + body,
            ),
            Some(found) => match graphql_errors(found) {
                Some(errors) => Err("hashnode returned GraphQL errors: "@ + errors),
                None => match json_at(body, "/data/publishPost/post/url"@) {
                    Some(Some((_, Some(url)))) => Ok(url),
                    _ => Err(
                        "hashnode returned "@ + st + " but no post url in the response: "@ + body,
                    ),
                },
            },
        }
    }
}

/// The serialized `errors` value of a reply, unless it is absent or `null`.
pub open spec fn graphql_errors(found: Option<(Seq<char>, Option<Seq<char>>)>) -> Option<Seq<char>> {
    match found {
        Some((text, _)) => if text != "null"@ {
            Some(text)
        } else {
            None
        },
        None => None,
    }
}

/// Reads Hashnode's reply: a non-2xx status, a body that is not JSON, a non-null `errors`
/// field (even with a 2xx status), or no string at `data.publishPost.post.url` is an error;
/// otherwise the outcome is that URL.
pub fn interpret_reply(reply: &HttpReply) -> (r: Result<PublishOutcome, String>)
    ensures
        match (r, hashnode_outcome(*reply)) {
            (Ok(o), Ok(u)) => o.message@ == u,
            (Err(e), Err(m)) => e@ == m,
            _ => false,
        },
{
    let st = reply.status_text.as_str();
    let body = reply.body.as_str();
    if !is_success(reply.status) {
        return Err(cat4("hashnode returned ", st, ": ", body));
    }
    let errors = json_lookup(body, "/errors");
    match errors {
        None => {
            return Err(
                cat4("hashnode returned ", st, " but the response body wasn't valid JSON: ", body),
            );
        },
        Some(Some((text, _))) => {
            if !is_null_text(text.as_str()) {
                return Err(cat("hashnode returned GraphQL errors: ", text.as_str()));
            }
        },
        Some(None) => {},
    }
    let url = json_lookup(body, "/data/publishPost/post/url");
    match url {
        Some(Some((_, Some(u)))) => Ok(PublishOutcome { message: u }),
        _ => Err(cat4("hashnode returned ", st, " but no post url in the response: ", body)),
    }
}

fn is_null_text(s: &str) -> (r: bool)
    ensures
        r == (s@ == "null"@),
{
    proof {
        reveal_strlit("null");
    }
    let v = crate::text::chars_of(s);
    if v.len() != 4 {
        return false;
    }
    let r = v[0] == 'n' && v[1] == 'u' && v[2] == 'l' && v[3] == 'l';
    proof {
        if r {
            assert(s@ =~= "null"@);
        }
    }
    r
}

} // verus!
