use m2s2_cli::markdown::{slugify, split_frontmatter};

#[test]
fn markdown_slugify_strips_punctuation_and_lowercases() {
    assert_eq!(slugify("Hello, World!"), "hello-world");
    assert_eq!(slugify("Rust & CLI Tools"), "rust-cli-tools");
    assert_eq!(slugify("already-kebab"), "already-kebab");
}

#[test]
fn split_frontmatter_separates_yaml_and_body() {
    let raw = "---\ntitle: X\ntags: [a, b]\n---\nBody line 1\nBody line 2\n";
    let (yaml, body) = split_frontmatter(raw).unwrap();
    assert_eq!(yaml, "title: X\ntags: [a, b]");
    assert_eq!(body, "Body line 1\nBody line 2");
}

#[test]
fn split_frontmatter_returns_none_without_leading_dashes() {
    assert!(split_frontmatter("# Just markdown, no frontmatter\n").is_none());
}

#[test]
fn split_frontmatter_returns_none_when_closing_delimiter_is_missing() {
    assert!(split_frontmatter("---\ntitle: X\nno closing delimiter\n").is_none());
}

#[test]
fn split_frontmatter_accepts_crlf_line_endings() {
    let raw = "---\r\ntitle: X\r\n---\r\nBody\r\n";
    let (yaml, body) = split_frontmatter(raw).unwrap();
    assert_eq!(yaml, "title: X");
    assert_eq!(body, "Body");
}

#[test]
fn slugify_is_idempotent_on_examples() {
    for s in ["Hello, World!", "  spaced  out  ", "ÄÖÜ mixed Case 42", "--already--"] {
        let once = slugify(s);
        assert_eq!(slugify(&once), once);
    }
}

#[test]
fn slugify_collapses_runs_and_trims_dashes() {
    assert_eq!(slugify("--A  B--"), "a-b");
    assert_eq!(slugify(""), "");
}
