//! A frontmatter `cover_image` value, resolved into what it actually is: an already-hosted URL,
//! or a local file whose bytes every "local" target needs base64-encoded.

use crate::text::{cat, cat3, has_prefix, str_starts_with};
use crate::types::{eq_ignore_ascii_case, eq_ignore_case};
use crate::text::ascii_to_lower;
use vstd::prelude::*;

verus! {

#[derive(Debug)]
pub enum CoverImage {
    Url(String),
    Local(LocalImage),
}

#[derive(Debug)]
pub struct LocalImage {
    pub filename: String,
    pub content_type: &'static str,
    pub base64_data: String,
}

/// Whether a cover image value is an `http://` or `https://` URL.
pub open spec fn is_hosted_url_spec(raw: Seq<char>) -> bool {
    has_prefix(raw, "http://"@) || has_prefix(raw, "https://"@)
}

/// Whether a cover image value is an already-hosted URL rather than a local path.
pub fn is_hosted_url(raw: &str) -> (r: bool)
    ensures
        r == is_hosted_url_spec(raw@),
{
    str_starts_with(raw, "http://") || str_starts_with(raw, "https://")
}

/// The character of the standard base64 alphabet (`A`-`Z`, `a`-`z`, `0`-`9`, `+`, `/`) for the
/// six-bit value `n`.
pub open spec fn base64_digit(n: int) -> char {
    if n < 26 {
        (65 + n) as char
    } else if n < 52 {
        (71 + n) as char
    } else if n < 62 {
        (n - 4) as char
    } else if n == 62 {
        '+'
    } else {
        '/'
    }
}

/// The standard base64 encoding of `data`, with padding: each group of three bytes becomes four
/// characters, six bits at a time, most significant first; a last group of one or two bytes is
/// filled out with zero bits, and its missing characters are `=`.
pub open spec fn base64_standard(data: Seq<u8>) -> Seq<char>
    decreases data.len(),
{
    if data.len() == 0 {
        seq![]
    } else if data.len() == 1 {
        let a = data[0] as int;
        seq![base64_digit(a / 4), base64_digit((a % 4) * 16), '=', '=']
    } else if data.len() == 2 {
        let a = data[0] as int;
        let b = data[1] as int;
        seq![base64_digit(a / 4), base64_digit((a % 4) * 16 + b / 16), base64_digit((b % 16) * 4), '=']
    } else {
        let a = data[0] as int;
        let b = data[1] as int;
        let c = data[2] as int;
        seq![
            base64_digit(a / 4),
            base64_digit((a % 4) * 16 + b / 16),
            base64_digit((b % 16) * 4 + c / 64),
            base64_digit(c % 64),
        ] + base64_standard(data.skip(3))
    }
}

/// `base64::engine::general_purpose::STANDARD.encode`: the standard-alphabet base64 encoding of
/// `data`, padded with `=`.
#[verifier::external_body]
fn base64_encode(data: &[u8]) -> (r: String)
    ensures
        r@ == base64_standard(data@),
{
    base64::Engine::encode(&base64::engine::general_purpose::STANDARD, data)
}

/// The content type for a file extension, compared ignoring ASCII case.
pub open spec fn content_type_for(extension: Option<Seq<char>>) -> Seq<char> {
    match extension {
        Some(ext) => if eq_ignore_case(ext, "png"@) {
            "image/png"@
        } else if eq_ignore_case(ext, "gif"@) {
            "image/gif"@
        } else if eq_ignore_case(ext, "webp"@) {
            "image/webp"@
        } else if eq_ignore_case(ext, "svg"@) {
            "image/svg+xml"@
        } else {
            "image/jpeg"@
        },
        None => "image/jpeg"@,
    }
}

/// The content type of an image file, guessed from its extension (JPEG when unknown).
pub fn guess_content_type(extension: Option<&str>) -> (r: &'static str)
    ensures
        r@ == content_type_for(
            match extension {
                Some(e) => Some(e@),
                None => None,
            },
        ),
{
    match extension {
        Some(ext) => if eq_ignore_ascii_case(ext, "png") {
            "image/png"
        } else if eq_ignore_ascii_case(ext, "gif") {
            "image/gif"
        } else if eq_ignore_ascii_case(ext, "webp") {
            "image/webp"
        } else if eq_ignore_ascii_case(ext, "svg") {
            "image/svg+xml"
        } else {
            "image/jpeg"
        },
        None => "image/jpeg",
    }
}

/// A local cover image read into memory: its file name (`cover` when the path has none), the
/// content type guessed from its extension, and its bytes base64-encoded.
pub fn local_image(file_name: Option<&str>, extension: Option<&str>, bytes: &[u8]) -> (r: LocalImage)
    ensures
        r.filename@ == (match file_name {
            Some(f) => f@,
            None => "cover"@,
        }),
        r.content_type@ == content_type_for(
            match extension {
                Some(e) => Some(e@),
                None => None,
            },
        ),
        r.base64_data@ == base64_standard(bytes@),
{
    let filename = match file_name {
        Some(f) => f.to_owned(),
        None => "cover".to_owned(),
    };
    LocalImage {
        filename,
        content_type: guess_content_type(extension),
        base64_data: base64_encode(bytes),
    }
}

/// The error for a local cover image that could not be read at `path`.
pub fn unreadable_error(raw: &str, path: &str, error: &str) -> (r: String)
    ensures
        r@ == "cover_image '"@ + raw@ + "' looks like a local path but couldn't be read at "@
            + path@ + ": "@ + error@,
{
    let head = cat3("cover_image '", raw, "' looks like a local path but couldn't be read at ");
    let head = cat3(head.as_str(), path, ": ");
    cat(head.as_str(), error)
}

pub open spec fn not_supported_message(target: Seq<char>) -> Seq<char> {
    "cover_image is a local file, but "@ + target
        + "'s API only accepts an already-hosted URL (it has no image upload endpoint) — host the image yourself and put its URL in frontmatter instead"@
}

/// The error for a local `cover_image` on a target whose API only accepts an already-hosted
/// URL (Dev.to, Hashnode — neither has an image-upload endpoint).
pub fn local_path_not_supported_error(target: &str) -> (r: String)
    ensures
        r@ == not_supported_message(target@),
{
    cat3(
        "cover_image is a local file, but ",
        target,
        "'s API only accepts an already-hosted URL (it has no image upload endpoint) — host the image yourself and put its URL in frontmatter instead",
    )
}

/// For targets that only accept hosted images: no cover image is `None`, a URL is passed
/// through, and a local path is an error naming the target.
pub fn resolve_url_only(raw: Option<&str>, target: &str) -> (r: Result<Option<String>, String>)
    ensures
        match raw {
            None => r == Ok::<Option<String>, String>(None),
            Some(c) => if is_hosted_url_spec(c@) {
                r matches Ok(Some(u)) && u@ == c@
            } else {
                r matches Err(e) && e@ == not_supported_message(target@)
            },
        },
{
    match raw {
        None => Ok(None),
        Some(c) => if is_hosted_url(c) {
            Ok(Some(c.to_owned()))
        } else {
            Err(local_path_not_supported_error(target))
        },
    }
}


/// A local cover's content type follows its extension: `png`, `gif`, `webp` and `svg` give
/// `image/png`, `image/gif`, `image/webp` and `image/svg+xml`; no extension, or any other,
/// gives `image/jpeg`.
pub proof fn law_content_type_follows_extension(other: Seq<char>)
    requires
        !eq_ignore_case(other, "png"@),
        !eq_ignore_case(other, "gif"@),
        !eq_ignore_case(other, "webp"@),
        !eq_ignore_case(other, "svg"@),
    ensures
        content_type_for(Some("png"@)) == "image/png"@,
        content_type_for(Some("gif"@)) == "image/gif"@,
        content_type_for(Some("webp"@)) == "image/webp"@,
        content_type_for(Some("svg"@)) == "image/svg+xml"@,
        content_type_for(Some(other)) == "image/jpeg"@,
        content_type_for(None) == "image/jpeg"@,
{
    reveal_strlit("png");
    reveal_strlit("gif");
    reveal_strlit("webp");
    reveal_strlit("svg");
    assert(eq_ignore_case("png"@, "png"@));
    assert(eq_ignore_case("gif"@, "gif"@));
    assert(eq_ignore_case("webp"@, "webp"@));
    assert(eq_ignore_case("svg"@, "svg"@));
    assert(!eq_ignore_case("gif"@, "png"@)) by {
        assert(ascii_to_lower("gif"@[0]) != ascii_to_lower("png"@[0]));
    }
    assert(!eq_ignore_case("svg"@, "png"@)) by {
        assert(ascii_to_lower("svg"@[0]) != ascii_to_lower("png"@[0]));
    }
    assert(!eq_ignore_case("svg"@, "gif"@)) by {
        assert(ascii_to_lower("svg"@[0]) != ascii_to_lower("gif"@[0]));
    }
}

} // verus!
