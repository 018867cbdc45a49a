use m2s2_cli::publish::article::{article_from_parts, slugify, Article, Frontmatter};
use m2s2_cli::publish::config::{DevToConfig, HashnodeConfig, PlatformConfig, PublishConfig};
use m2s2_cli::publish::cover_image::{
    guess_content_type, local_image, local_path_not_supported_error, resolve_url_only, unreadable_error,
    CoverImage,
};
use m2s2_cli::publish::reply::HttpReply;
use m2s2_cli::publish::target::{prepare_all, PreparedTarget, Target};
use m2s2_cli::publish::target_kind::TargetKind;
use m2s2_cli::publish::targets::devto::{self, DevTo};
use m2s2_cli::publish::targets::hashnode::{self, Hashnode};
use m2s2_cli::publish::targets::platform::{self, blog_post_request, Method, Platform};
use m2s2_cli::publish::targets::{build_one, build_targets};

fn frontmatter(cover: Option<&str>, tags: &[&str], publish: Vec<TargetKind>) -> Frontmatter {
    Frontmatter {
        title: "Hello".into(),
        slug: None,
        date: "2026-07-30".into(),
        summary: "A test".into(),
        excerpt: None,
        tags: tags.iter().map(|t| t.to_string()).collect(),
        cover_image: cover.map(|c| c.to_string()),
        canonical_url: None,
        publish,
    }
}

fn article(cover: Option<&str>) -> Article {
    article_from_parts(
        frontmatter(cover, &["rust", "cli", "testing", "extra", "dropped"], vec![TargetKind::Devto]),
        "posts/post.md",
        Some("post"),
        "posts".into(),
        "Body.\n",
        None,
    )
    .unwrap()
}

fn article_with_local_cover() -> Article {
    article(Some("hero.jpg"))
}

fn client() -> reqwest::Client {
    reqwest::Client::new()
}

#[test]
fn article_slugify_strips_punctuation_and_lowercases() {
    assert_eq!(slugify("Hello, World!"), "hello-world");
    assert_eq!(slugify("Rust & CLI Tools"), "rust-cli-tools");
}

#[test]
fn explicit_slug_overrides_filename() {
    let mut fm = frontmatter(None, &[], vec![TargetKind::Devto]);
    fm.slug = Some("custom-slug".into());
    let a = article_from_parts(fm, "post.md", Some("some-file"), ".".into(), "b", None).unwrap();
    assert_eq!(a.slug, "custom-slug");
}

#[test]
fn cli_to_flag_overrides_frontmatter_publish_list() {
    let fm = frontmatter(None, &[], vec![TargetKind::Devto]);
    let to = vec![TargetKind::Hashnode, TargetKind::Platform];
    let a = article_from_parts(fm, "post.md", Some("post"), ".".into(), "b", Some(&to)).unwrap();
    assert_eq!(a.targets, vec![TargetKind::Hashnode, TargetKind::Platform]);
}

#[test]
fn no_targets_is_an_error() {
    let fm = frontmatter(None, &[], vec![]);
    let err = article_from_parts(fm, "post.md", Some("post"), ".".into(), "b", None).unwrap_err();
    assert!(err.contains("no publish targets"));
}

#[test]
fn slug_derived_from_file_stem_and_body_trimmed() {
    let a = article(None);
    assert_eq!(a.slug, "post");
    assert_eq!(a.content, "Body.");
}

#[test]
fn url_passes_through_unread() {
    assert_eq!(
        resolve_url_only(Some("https://example.com/hero.jpg"), "devto").unwrap(),
        Some("https://example.com/hero.jpg".to_string())
    );
}

#[test]
fn no_cover_image_resolves_to_none() {
    assert_eq!(resolve_url_only(None, "devto").unwrap(), None);
}

#[test]
fn local_path_is_read_and_base64_encoded() {
    let img = local_image(Some("hero.png"), Some("png"), &[0x89, 0x50, 0x4e, 0x47]);
    assert_eq!(img.filename, "hero.png");
    assert_eq!(img.content_type, "image/png");
    assert_eq!(img.base64_data, "iVBORw==");
}

#[test]
fn content_types_by_extension() {
    assert_eq!(guess_content_type(Some("PNG")), "image/png");
    assert_eq!(guess_content_type(Some("gif")), "image/gif");
    assert_eq!(guess_content_type(Some("webp")), "image/webp");
    assert_eq!(guess_content_type(Some("svg")), "image/svg+xml");
    assert_eq!(guess_content_type(Some("jpg")), "image/jpeg");
    assert_eq!(guess_content_type(None), "image/jpeg");
}

#[test]
fn local_path_error_names_the_target() {
    let e = local_path_not_supported_error("devto");
    assert!(e.starts_with("cover_image is a local file, but devto's API"));
    assert!(e.contains("only accepts an already-hosted URL"));
}

#[test]
fn devto_prepare_rejects_a_local_cover_image_before_any_publish_call() {
    let article = article_with_local_cover();
    let target = Target::Devto(DevTo::new(client(), &DevToConfig { api_key: "x".into() }));
    let err = target.prepare(&article, false).unwrap_err();
    assert!(err.contains("only accepts an already-hosted URL"));
}

#[test]
fn devto_prepare_rejects_update_before_any_publish_call() {
    let article = article_with_local_cover();
    let target = Target::Devto(DevTo::new(client(), &DevToConfig { api_key: "x".into() }));
    let err = target.prepare(&article, true).unwrap_err();
    assert!(err.contains("doesn't support --update"));
}

fn platform_target(endpoint: &str, path: Option<&str>) -> Target {
    Target::Platform(Platform::new(
        client(),
        &PlatformConfig {
            endpoint: endpoint.into(),
            path: path.map(|p| p.to_string()),
            token: "x".into(),
            body_command: None,
        },
    ))
}

#[test]
fn platform_prepare_accepts_a_local_cover_image() {
    let article = article_with_local_cover();
    platform_target("http://unused", None).prepare(&article, false).unwrap();
}

#[test]
fn platform_prepare_accepts_update() {
    let article = article_with_local_cover();
    match platform_target("http://unused", None).prepare(&article, true).unwrap() {
        PreparedTarget::Platform(p) => {
            assert_eq!(p.method, Method::Put);
            assert_eq!(p.url, "http://unused/admin/blog");
            assert_eq!(p.slug_query.as_deref(), Some("post"));
        }
        other => panic!("unexpected {other:?}"),
    }
}

#[test]
fn platform_path_gets_a_leading_slash_and_endpoint_loses_trailing_ones() {
    match platform_target("https://api.example.com//", Some("custom/blog")).prepare(&article(None), false).unwrap() {
        PreparedTarget::Platform(p) => {
            assert_eq!(p.method, Method::Post);
            assert_eq!(p.url, "https://api.example.com/custom/blog");
            assert!(p.slug_query.is_none());
        }
        other => panic!("unexpected {other:?}"),
    }
}

#[test]
fn devto_request_caps_tags_at_four() {
    let target = DevTo::with_base_url(client(), &DevToConfig { api_key: "secret".into() }, "http://x");
    let prepared = target.prepare(&article(Some("https://example.com/hero.jpg")), false).unwrap();
    assert_eq!(prepared.tags, "rust,cli,testing,extra");
    assert_eq!(prepared.main_image.as_deref(), Some("https://example.com/hero.jpg"));
    assert_eq!(target.articles_url(), "http://x/api/articles");
    let fields = DevTo::article_fields(prepared);
    assert!(fields.published);
    assert_eq!(fields.title, "Hello");
}

#[test]
fn update_is_not_supported() {
    let target = DevTo::with_base_url(client(), &DevToConfig { api_key: "x".into() }, "http://unused");
    let err = target.prepare(&article(None), true).unwrap_err();
    assert!(err.contains("doesn't support --update"));
}

fn reply(status: u16, status_text: &str, body: &str) -> HttpReply {
    HttpReply { status, status_text: status_text.into(), body: body.into() }
}

#[test]
fn publish_posts_expected_body_and_parses_url() {
    let outcome = devto::interpret_reply(&reply(201, "201 Created", r#"{"url": "https://dev.to/x/hello"}"#)).unwrap();
    assert_eq!(outcome.message, "https://dev.to/x/hello");
}

#[test]
fn devto_malformed_json_on_success_status_is_an_error() {
    let err = devto::interpret_reply(&reply(201, "201 Created", "<html>not json</html>")).unwrap_err();
    assert!(err.contains("wasn't valid JSON"));
}

#[test]
fn missing_url_field_on_success_status_is_an_error() {
    let err = devto::interpret_reply(&reply(201, "201 Created", r#"{"id": 123}"#)).unwrap_err();
    assert!(err.contains("no \"url\" field"));
}

#[test]
fn non_success_status_is_an_error() {
    let err = devto::interpret_reply(&reply(422, "422 Unprocessable Entity", r#"{"error":"invalid"}"#)).unwrap_err();
    assert!(err.contains("422"));
}

#[test]
fn publish_sends_bearer_token_and_parses_url() {
    let target = Hashnode::with_endpoint(
        client(),
        &HashnodeConfig { token: "secret-pat".into(), publication_id: "pub1".into() },
        "http://x",
    );
    assert_eq!(target.authorization(), "Bearer secret-pat");
    let outcome = hashnode::interpret_reply(&reply(
        200,
        "200 OK",
        r#"{"data": {"publishPost": {"post": {"id": "1", "url": "https://blog.example.com/hello"}}}}"#,
    ))
    .unwrap();
    assert_eq!(outcome.message, "https://blog.example.com/hello");
}

#[test]
fn hashnode_malformed_json_on_success_status_is_an_error() {
    let err = hashnode::interpret_reply(&reply(200, "200 OK", "<html>not json</html>")).unwrap_err();
    assert!(err.contains("wasn't valid JSON"));
}

#[test]
fn missing_post_url_on_success_status_is_an_error() {
    let err = hashnode::interpret_reply(&reply(200, "200 OK", r#"{"data": {"publishPost": null}}"#)).unwrap_err();
    assert!(err.contains("no post url"));
}

#[test]
fn graphql_errors_field_is_surfaced_even_on_http_200() {
    let err = hashnode::interpret_reply(&reply(
        200,
        "200 OK",
        r#"{"errors": [{"message": "publication requires Hashnode Pro"}], "data": null}"#,
    ))
    .unwrap_err();
    assert!(err.contains("Hashnode Pro"));
}

#[test]
fn null_errors_field_is_not_an_error() {
    let outcome = hashnode::interpret_reply(&reply(
        200,
        "200 OK",
        r#"{"errors": null, "data": {"publishPost": {"post": {"url": "https://b.example/p"}}}}"#,
    ))
    .unwrap();
    assert_eq!(outcome.message, "https://b.example/p");
}

#[test]
fn hashnode_tags_carry_their_slugs() {
    let target = Hashnode::new(client(), &HashnodeConfig { token: "t".into(), publication_id: "pub1".into() });
    let prepared = target.prepare(&article(None), false).unwrap();
    let input = target.publish_input(prepared);
    assert_eq!(input.publication_id, "pub1");
    assert_eq!(input.tags.len(), 5);
    assert_eq!(input.tags[0].name, "rust");
    assert_eq!(input.tags[0].slug, "rust");
}

#[test]
fn platform_create_posts_to_admin_blog() {
    let outcome = platform::interpret_reply(&reply(201, "201 Created", r#"{"message":"post created"}"#), "hello", false).unwrap();
    assert_eq!(outcome.message, "created");
}

#[test]
fn platform_update_uses_put_with_slug_query_param() {
    let outcome = platform::interpret_reply(&reply(200, "200 OK", "{}"), "hello", true).unwrap();
    assert_eq!(outcome.message, "updated");
}

#[test]
fn platform_conflict_suggests_update_flag() {
    let err = platform::interpret_reply(&reply(409, "409 Conflict", ""), "hello", false).unwrap_err();
    assert!(err.contains("--update"));
    assert!(err.contains("slug 'hello'"));
}

#[test]
fn platform_other_failure_reports_status_and_body() {
    let err = platform::interpret_reply(&reply(500, "500 Internal Server Error", "boom"), "hello", false).unwrap_err();
    assert_eq!(err, "platform returned 500 Internal Server Error: boom");
}

#[test]
fn cover_image_url_is_sent_as_cover_image_field() {
    let a = article(Some("https://example.com/hero.jpg"));
    let body = blog_post_request(&a, Some(CoverImage::Url("https://example.com/hero.jpg".into())));
    assert_eq!(body.cover_image.as_deref(), Some("https://example.com/hero.jpg"));
    assert!(body.cover_image_filename.is_none());
}

#[test]
fn cover_image_local_path_is_uploaded_as_base64() {
    let a = article(Some("hero.png"));
    let img = local_image(Some("hero.png"), Some("png"), &[0x89, 0x50, 0x4e, 0x47]);
    let body = blog_post_request(&a, Some(CoverImage::Local(img)));
    assert!(body.cover_image.is_none());
    assert_eq!(body.cover_image_filename.as_deref(), Some("hero.png"));
    assert_eq!(body.cover_image_content_type, Some("image/png"));
    assert_eq!(body.cover_image_data.as_deref(), Some("iVBORw=="));
}

#[test]
fn known_target_without_config_section_is_a_clear_error() {
    let Err(err) = build_one(TargetKind::Devto, &client(), &PublishConfig::default()) else {
        panic!("expected an error");
    };
    assert!(err.contains("no [devto] section"));
}

#[test]
fn build_targets_stops_at_the_first_missing_section() {
    let config = PublishConfig {
        devto: Some(DevToConfig { api_key: "k".into() }),
        ..Default::default()
    };
    let Err(err) = build_targets(&vec![TargetKind::Devto, TargetKind::Platform, TargetKind::Hashnode], &client(), &config) else {
        panic!("expected an error");
    };
    assert_eq!(err, "no [platform] section in .m2s2-publish.toml");
}

#[test]
fn prepare_all_reports_the_first_failing_target() {
    let config = PublishConfig {
        devto: Some(DevToConfig { api_key: "k".into() }),
        hashnode: Some(HashnodeConfig { token: "t".into(), publication_id: "p".into() }),
        platform: None,
    };
    let targets = build_targets(&vec![TargetKind::Hashnode, TargetKind::Devto], &client(), &config).unwrap();
    assert_eq!(targets[0].kind(), TargetKind::Hashnode);
    let err = prepare_all(&targets, &article_with_local_cover(), false).unwrap_err();
    assert!(err.contains("hashnode's API"));
    let ok = prepare_all(&targets, &article(None), false).unwrap();
    assert_eq!(ok.len(), 2);
}

#[test]
fn target_names_parse_back_ignoring_case() {
    assert_eq!(TargetKind::parse("DevTo"), Some(TargetKind::Devto));
    assert_eq!(TargetKind::parse("hashnode"), Some(TargetKind::Hashnode));
    assert_eq!(TargetKind::parse("PLATFORM"), Some(TargetKind::Platform));
    assert_eq!(TargetKind::parse("medium"), None);
    assert_eq!(TargetKind::Platform.name(), "platform");
}

#[test]
fn missing_local_file_is_a_clear_error() {
    let err = unreadable_error("does-not-exist.jpg", "/tmp/x/does-not-exist.jpg", "No such file or directory (os error 2)");
    assert!(err.contains("couldn't be read"));
    assert_eq!(
        err,
        "cover_image 'does-not-exist.jpg' looks like a local path but couldn't be read at /tmp/x/does-not-exist.jpg: No such file or directory (os error 2)"
    );
}

#[test]
fn custom_path_overrides_the_default() {
    match platform_target("http://127.0.0.1:9", Some("wp-json/blog/v1/posts")).prepare(&article(None), false).unwrap() {
        PreparedTarget::Platform(p) => assert_eq!(p.url, "http://127.0.0.1:9/wp-json/blog/v1/posts"),
        other => panic!("unexpected {other:?}"),
    }
}

#[test]
fn cover_image_url_is_sent_as_main_image() {
    let target = DevTo::with_base_url(client(), &DevToConfig { api_key: "x".into() }, "http://x");
    let prepared = target.prepare(&article(Some("https://example.com/hero.jpg")), false).unwrap();
    assert_eq!(DevTo::article_fields(prepared).main_image.as_deref(), Some("https://example.com/hero.jpg"));
}

#[test]
fn devto_cover_image_local_path_is_a_clear_error() {
    let target = DevTo::with_base_url(client(), &DevToConfig { api_key: "x".into() }, "http://unused");
    let err = target.prepare(&article(Some("hero.jpg")), false).unwrap_err();
    assert!(err.contains("only accepts an already-hosted URL"));
}

#[test]
fn cover_image_url_is_sent_via_cover_image_options() {
    let target = Hashnode::new(client(), &HashnodeConfig { token: "t".into(), publication_id: "p".into() });
    let prepared = target.prepare(&article(Some("https://example.com/hero.jpg")), false).unwrap();
    let input = target.publish_input(prepared);
    assert_eq!(input.cover_image_url.as_deref(), Some("https://example.com/hero.jpg"));
}

#[test]
fn hashnode_cover_image_local_path_is_a_clear_error() {
    let target = Hashnode::new(client(), &HashnodeConfig { token: "t".into(), publication_id: "p".into() });
    let err = target.prepare(&article(Some("hero.jpg")), false).unwrap_err();
    assert!(err.contains("only accepts an already-hosted URL"));
    assert!(err.contains("hashnode"));
}
