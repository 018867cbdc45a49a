use m2s2_cli::report::{glyph, CheckStatus, OutputReport};

#[test]
fn passed_is_true_with_no_checks() {
    assert!(OutputReport::new().passed());
}

#[test]
fn passed_is_true_with_only_warnings() {
    let mut report = OutputReport::new();
    report.push("a.check", CheckStatus::Warning, "hm");
    assert!(report.passed());
}

#[test]
fn passed_is_false_with_any_failure() {
    let mut report = OutputReport::new();
    report.push("a.check", CheckStatus::Passed, "ok");
    report.push("b.check", CheckStatus::Failed, "bad");
    assert!(!report.passed());
}

#[test]
fn push_keeps_code_status_and_message_in_order() {
    let mut report = OutputReport::new();
    report.push("a.check", CheckStatus::Passed, "ok");
    report.push("b.check", CheckStatus::Warning, "hm");
    assert_eq!(report.checks.len(), 2);
    assert_eq!(report.checks[0].code, "a.check");
    assert_eq!(report.checks[1].status, CheckStatus::Warning);
    assert_eq!(report.checks[1].message, "hm");
}

#[test]
fn glyphs_per_status() {
    assert_eq!(glyph(CheckStatus::Passed), "✓");
    assert_eq!(glyph(CheckStatus::Warning), "⚠");
    assert_eq!(glyph(CheckStatus::Failed), "✗");
}
