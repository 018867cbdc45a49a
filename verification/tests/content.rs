use m2s2_cli::commands::content::{inspect_lines, validation_outcome};
use m2s2_cli::content::article::{
    article_from_parts, extract_local_link_targets, is_other_with_slug, path_check, path_escapes_roots,
    unresolved_message,
    validate, Article, Frontmatter, LocalCover, PathCheck, ValidationFacts, CURRENT_SCHEMA_VERSION,
};
use m2s2_cli::content::config::{
    config_path, init_contents, missing_config_message, ContentConfig, ContentSection, DEFAULT_ARTICLES_DIR,
    DEFAULT_ASSETS_DIR,
};
use m2s2_cli::report::{CheckStatus, OutputReport};

fn fm(title: Option<&str>, slug: Option<&str>, summary: Option<&str>, tags: &[&str], canonical: Option<&str>) -> Frontmatter {
    Frontmatter {
        schema_version: None,
        title: title.map(|s| s.to_string()),
        slug: slug.map(|s| s.to_string()),
        summary: summary.map(|s| s.to_string()),
        tags: tags.iter().map(|s| s.to_string()).collect(),
        canonical_url: canonical.map(|s| s.to_string()),
        cover_image: None,
    }
}

fn valid_article() -> Article {
    article_from_parts(
        fm(Some("Hello World"), Some("hello-world"), Some("A test post"), &["rust", "cli"], Some("https://m2s2.io/blog/hello-world")),
        Some("hello-world"),
        "/tmp/c".into(),
        "Body text.\n",
    )
}

fn simple(body: &str) -> Article {
    article_from_parts(
        fm(Some("T"), None, Some("s"), &["a"], Some("https://x.io/y")),
        Some("post"),
        "/tmp/c/articles".into(),
        body,
    )
}

fn facts() -> ValidationFacts {
    ValidationFacts { articles_dir: "/tmp/c".into(), duplicate_of: None, local_cover: None, link_escapes: vec![] }
}

fn status_of(report: &OutputReport, code: &str) -> CheckStatus {
    report.checks.iter().find(|c| c.code == code).unwrap().status
}

#[test]
fn article_parses_full_frontmatter() {
    let article = valid_article();
    assert_eq!(article.title.as_deref(), Some("Hello World"));
    assert_eq!(article.slug, "hello-world");
    assert_eq!(article.tags, vec!["rust", "cli"]);
    assert_eq!(article.canonical_url.as_deref(), Some("https://m2s2.io/blog/hello-world"));
    assert_eq!(article.schema_version, CURRENT_SCHEMA_VERSION);
    assert_eq!(article.content, "Body text.");
}

#[test]
fn slug_defaults_to_filename_when_absent() {
    let article = article_from_parts(fm(Some("T"), None, Some("s"), &[], Some("https://x.io/y")), Some("my-post"), ".".into(), "body\n");
    assert_eq!(article.slug, "my-post");
}

#[test]
fn missing_required_fields_are_reported_not_a_parse_error() {
    let article = article_from_parts(fm(Some("T"), None, None, &[], None), Some("post"), ".".into(), "body\n");
    let report = validate(&article, &facts(), "");
    assert_eq!(status_of(&report, "content.summary.present"), CheckStatus::Failed);
    assert_eq!(status_of(&report, "content.canonical_url.present"), CheckStatus::Failed);
}

#[test]
fn canonical_url_must_be_https() {
    let article = article_from_parts(fm(Some("T"), None, Some("s"), &["a"], Some("http://x.io/y")), Some("post"), ".".into(), "body\n");
    let report = validate(&article, &facts(), "");
    assert_eq!(status_of(&report, "content.canonical_url.https"), CheckStatus::Failed);
}

#[test]
fn valid_article_passes_every_check() {
    let report = validate(&valid_article(), &facts(), "");
    assert!(report.passed(), "{:#?}", report.checks);
}

#[test]
fn canonical_url_must_be_under_the_configured_base() {
    let report = validate(&valid_article(), &facts(), "https://other-domain.example");
    assert_eq!(status_of(&report, "content.canonical_url.matches_base"), CheckStatus::Failed);
}

#[test]
fn canonical_url_under_the_configured_base_passes() {
    let report = validate(&valid_article(), &facts(), "https://m2s2.io/blog");
    assert_eq!(status_of(&report, "content.canonical_url.matches_base"), CheckStatus::Passed);
}

#[test]
fn duplicate_slug_across_articles_dir_is_a_failure() {
    let other = article_from_parts(
        fm(Some("Other"), Some("hello-world"), Some("s"), &["a"], Some("https://m2s2.io/blog/other")),
        Some("other"),
        "/tmp/c".into(),
        "body\n",
    );
    let f = ValidationFacts { duplicate_of: Some("/tmp/c/hello-world.md".into()), ..facts() };
    let report = validate(&other, &f, "");
    assert_eq!(status_of(&report, "content.slug.duplicate"), CheckStatus::Failed);
}

fn roots() -> Vec<Option<String>> {
    vec![Some("/tmp/r/articles".into()), Some("/tmp/r/assets".into())]
}

#[test]
fn cover_image_escaping_articles_dir_is_a_failure() {
    let mut article = simple("body\n");
    article.cover_image = Some("../secret.png".into());
    let escape = path_check(Ok("/tmp/r/secret.png".into()), &roots());
    assert!(matches!(escape, PathCheck::Escapes));
    let f = ValidationFacts {
        local_cover: Some(LocalCover::Readable { filename: "secret.png".into(), escape }),
        ..facts()
    };
    let report = validate(&article, &f, "");
    assert_eq!(status_of(&report, "content.cover_image.path_escape"), CheckStatus::Failed);
}

#[test]
fn cover_image_within_assets_dir_passes() {
    let mut article = simple("body\n");
    article.cover_image = Some("../assets/hero.png".into());
    let escape = path_check(Ok("/tmp/r/assets/hero.png".into()), &roots());
    assert!(matches!(escape, PathCheck::Within));
    let f = ValidationFacts {
        local_cover: Some(LocalCover::Readable { filename: "hero.png".into(), escape }),
        ..facts()
    };
    let report = validate(&article, &f, "");
    assert_eq!(status_of(&report, "content.cover_image.path_escape"), CheckStatus::Passed);
}

#[test]
fn body_link_escaping_roots_is_a_failure() {
    let article = simple("Body with an image: ![alt](../secret.png)\n");
    let targets = extract_local_link_targets(&article.content);
    assert_eq!(targets, vec!["../secret.png".to_string()]);
    let escapes: Vec<bool> = targets
        .iter()
        .map(|_| path_escapes_roots(&path_check(Ok("/tmp/r/secret.png".into()), &roots())))
        .collect();
    let f = ValidationFacts { link_escapes: escapes, ..facts() };
    let report = validate(&article, &f, "");
    assert_eq!(status_of(&report, "content.links.path_escape"), CheckStatus::Failed);
}

#[test]
fn unresolved_placeholder_in_body_is_a_failure() {
    let article = simple("Hello {{name}}, welcome.\n");
    let report = validate(&article, &facts(), "");
    assert_eq!(status_of(&report, "content.placeholder.unresolved"), CheckStatus::Failed);
}

#[test]
fn unsupported_schema_version_is_a_failure() {
    let mut f = fm(Some("T"), None, Some("s"), &["a"], Some("https://x.io/y"));
    f.schema_version = Some(99);
    let article = article_from_parts(f, Some("post"), ".".into(), "body\n");
    let report = validate(&article, &facts(), "");
    assert_eq!(status_of(&report, "content.schema_version.supported"), CheckStatus::Failed);
}

#[test]
fn path_check_treats_sibling_prefixes_as_outside() {
    assert!(matches!(path_check(Ok("/tmp/r/assets2/x.png".into()), &roots()), PathCheck::Escapes));
    assert!(matches!(path_check(Ok("/tmp/r/assets".into()), &roots()), PathCheck::Within));
    assert!(matches!(path_check(Ok("/tmp/r/assets/x.png".into()), &vec![None]), PathCheck::Escapes));
    match path_check(Err(unresolved_message("x.png", "No such file")), &roots()) {
        PathCheck::Unresolved(e) => assert_eq!(e, "couldn't resolve path x.png: No such file"),
        _ => panic!("expected unresolved"),
    }
}

#[test]
fn init_writes_expected_toml_shape() {
    let text = init_contents(DEFAULT_ARTICLES_DIR, DEFAULT_ASSETS_DIR, "https://m2s2.io/blog", ".m2s2/config.toml", false, false).unwrap();
    assert_eq!(
        text,
        "schema_version = 1\n\n[content]\narticles_dir = \"articles\"\nassets_dir = \"assets\"\ncanonical_base_url = \"https://m2s2.io/blog\"\n"
    );
}

#[test]
fn init_refuses_to_overwrite_without_force() {
    let err = init_contents("articles", "assets", "https://m2s2.io/blog", "x/.m2s2/config.toml", true, false).unwrap_err();
    assert!(err.contains("already exists"));
    assert!(init_contents("articles", "assets", "https://m2s2.io/blog", "x/.m2s2/config.toml", true, true).is_ok());
}

#[test]
fn init_rejects_non_https_canonical_base_url() {
    let err = init_contents("articles", "assets", "http://m2s2.io/blog", "p", false, false).unwrap_err();
    assert!(err.contains("must be an absolute https:// URL"));
}

#[test]
fn load_rejects_an_unsupported_schema_version() {
    let config = ContentConfig {
        schema_version: 99,
        content: ContentSection { articles_dir: "articles".into(), assets_dir: "assets".into(), canonical_base_url: "https://x.io".into() },
    };
    let err = config.accept(".m2s2/config.toml").unwrap_err();
    assert!(err.contains("schema_version 99"));
    assert_eq!(err, ".m2s2/config.toml has schema_version 99 but this CLI only supports 1 — upgrade m2s2-cli or update the config");
}

#[test]
fn content_directories_are_joined_under_the_root() {
    let config = ContentConfig {
        schema_version: 1,
        content: ContentSection { articles_dir: "articles".into(), assets_dir: "assets".into(), canonical_base_url: "https://x".into() },
    };
    let config = config.accept("p").unwrap();
    assert_eq!(config.articles_dir("."), "./articles");
    assert_eq!(config.assets_dir("/srv/site/"), "/srv/site/assets");
    assert_eq!(config_path("."), "./.m2s2/config.toml");
}

#[test]
fn validation_outcome_names_the_file_on_failure() {
    let mut report = OutputReport::new();
    assert!(validation_outcome(&report, "a.md").is_ok());
    report.push("x", CheckStatus::Failed, "bad");
    assert_eq!(validation_outcome(&report, "a.md").unwrap_err(), "content validation failed for a.md");
}

#[test]
fn inspect_lines_fill_in_absent_fields() {
    let article = article_from_parts(fm(None, Some("s"), None, &["a", "b"], None), None, ".".into(), "x");
    let lines = inspect_lines(&article);
    assert_eq!(lines[0], "(untitled)");
    assert_eq!(lines[1], "  slug: s");
    assert_eq!(lines[2], "  summary: (none)");
    assert_eq!(lines[3], "  tags: a, b");
    assert_eq!(lines[4], "  canonical_url: (none)");
    assert_eq!(lines[5], "  cover_image: (none)");
    assert_eq!(lines[6], "  schema_version: 1");
    assert_eq!(lines[7], "");
}

#[test]
fn duplicates_are_other_files_with_the_same_slug() {
    let me = Some("/a/post.md".to_string());
    assert!(!is_other_with_slug("hello", &me, &me.clone(), || panic!("not read")));
    assert!(!is_other_with_slug("hello", &None, &None, || panic!("not read")));
    assert!(is_other_with_slug("hello", &me, &Some("/a/other.md".into()), || Some("hello".into())));
    assert!(!is_other_with_slug("hello", &me, &Some("/a/other.md".into()), || Some("bye".into())));
    assert!(!is_other_with_slug("hello", &me, &None, || None));
}

#[test]
fn load_without_init_is_a_clear_error() {
    let err = missing_config_message(&config_path("/tmp/empty"));
    assert!(err.contains("content init"));
    assert_eq!(err, "no /tmp/empty/.m2s2/config.toml found — run `m2s2 content init` first");
}
