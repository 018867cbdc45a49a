use m2s2_cli::npm::{
    declared_versions, extract_version, insert_fetched, lists, max_satisfying_in,
    max_satisfying_own_peer_in, missing_packages, npm_range_to_req, peer_conflict, pin_all,
    peer_reconcile_step, sanitize_key, tooling_reconcile_step, version_satisfies, DeclaredDependency,
    PeerDeclaration, ReconcileAction,
};
use m2s2_cli::version_map::VersionMap;

#[test]
fn sanitize_scoped_package() {
    assert_eq!(sanitize_key("@m2s2/react-lib"), "_m2s2_react_lib");
}

#[test]
fn sanitize_types_package() {
    assert_eq!(sanitize_key("@types/react"), "_types_react");
}

#[test]
fn sanitize_plain_package() {
    assert_eq!(sanitize_key("typescript"), "typescript");
}

#[test]
fn sanitize_hyphenated_package() {
    assert_eq!(sanitize_key("sass-embedded"), "sass_embedded");
}

#[test]
fn extract_caret_range() {
    assert_eq!(extract_version("^18.3.1"), Some("18.3.1".into()));
}

#[test]
fn extract_tilde_range() {
    assert_eq!(extract_version("~5.9.3"), Some("5.9.3".into()));
}

#[test]
fn extract_gte_range() {
    assert_eq!(extract_version(">=3.0.0"), Some("3.0.0".into()));
}

#[test]
fn extract_exact_version() {
    assert_eq!(extract_version("1.2.3"), Some("1.2.3".into()));
}

#[test]
fn extract_invalid_returns_none() {
    assert_eq!(extract_version("latest"), None);
}

#[test]
fn extract_star_returns_none() {
    assert_eq!(extract_version("*"), None);
}

#[test]
fn npm_range_no_space_before_version() {
    let req = npm_range_to_req(">=5.9 <7.0").unwrap();
    assert!(req.matches_text("6.5.0").unwrap());
    assert!(!req.matches_text("7.0.0").unwrap());
    assert!(!req.matches_text("5.8.9").unwrap());
}

#[test]
fn npm_range_space_before_version() {
    let req = npm_range_to_req(">= 22.0.0 < 23.0.0").unwrap();
    assert!(req.matches_text("22.1.0").unwrap());
    assert!(!req.matches_text("23.0.0").unwrap());
}

#[test]
fn npm_range_caret() {
    let req = npm_range_to_req("^8.0.0").unwrap();
    assert!(req.matches_text("8.65.0").unwrap());
    assert!(!req.matches_text("9.0.0").unwrap());
}

#[test]
fn version_satisfies_within_range() {
    assert!(version_satisfies("6.5.0", ">=5.9 <7.0"));
    assert!(!version_satisfies("7.0.2", ">=5.9 <7.0"));
}

#[test]
fn version_satisfies_fails_open_on_unparseable_input() {
    assert!(version_satisfies("not-a-version", ">=5.9 <7.0"));
    assert!(version_satisfies("6.5.0", "not-a-range"));
}

#[test]
fn extract_version_skips_leading_text_and_stops_at_whitespace() {
    assert_eq!(extract_version("v1.2.3 || 2.0.0"), Some("1.2.3".into()));
    assert_eq!(extract_version("^7"), None);
}

fn dep(package: &str, range: Option<&str>) -> DeclaredDependency {
    DeclaredDependency { package: package.to_string(), range: range.map(|r| r.to_string()) }
}

#[test]
fn declared_versions_first_declaration_wins_and_angular_is_filled() {
    let peer = vec![dep("@angular/core", Some("^19.2.0")), dep("rxjs", Some("~7.8.0"))];
    let deps = vec![dep("rxjs", Some("^6.0.0")), dep("tslib", None)];
    let dev = vec![dep("zone.js", Some("latest"))];
    let m = declared_versions(&peer, &deps, &dev);
    assert_eq!(m.get("rxjs").map(|s| s.as_str()), Some("7.8.0"));
    assert_eq!(m.get("_angular_core").map(|s| s.as_str()), Some("19.2.0"));
    assert_eq!(m.get("_angular_router").map(|s| s.as_str()), Some("19.2.0"));
    assert_eq!(m.get("_angular_cli").map(|s| s.as_str()), Some("19.2.0"));
    assert!(m.get("tslib").is_none());
    assert!(m.get("zone_js").is_none());
}

#[test]
fn missing_packages_are_those_without_a_key() {
    let mut m = VersionMap::new();
    m.insert("typescript".to_string(), "5.0.0".to_string());
    let missing = missing_packages(&m, &vec!["typescript", "vite", "@types/react"]);
    assert_eq!(missing, vec!["vite".to_string(), "@types/react".to_string()]);
}

#[test]
fn max_satisfying_picks_the_highest_matching_version() {
    let published: Vec<String> =
        ["5.8.3", "6.1.0", "6.0.9", "7.0.0", "garbage"].iter().map(|s| s.to_string()).collect();
    assert_eq!(max_satisfying_in(&published, ">=5.9 <7.0"), Some("6.1.0".to_string()));
    assert_eq!(max_satisfying_in(&published, ">=9"), None);
    assert_eq!(max_satisfying_in(&published, "not a range"), None);
}

#[test]
fn max_own_peer_picks_the_highest_version_accepting_the_peer() {
    let ds = vec![
        PeerDeclaration { version: "19.0.0".into(), peer_range: Some("^19.0.0".into()) },
        PeerDeclaration { version: "20.1.0".into(), peer_range: Some("^20.0.0".into()) },
        PeerDeclaration { version: "19.4.0".into(), peer_range: Some("^19.0.0".into()) },
        PeerDeclaration { version: "21.0.0".into(), peer_range: None },
    ];
    assert_eq!(max_satisfying_own_peer_in(&ds, "19.2.3"), Some("19.4.0".to_string()));
    assert_eq!(max_satisfying_own_peer_in(&ds, "18.0.0"), None);
}

#[test]
fn peer_conflict_only_when_both_known_and_unsatisfied() {
    assert!(peer_conflict(Some("6.0.0"), Some(">=4.8.4 <5.9.0")));
    assert!(!peer_conflict(Some("5.0.0"), Some(">=4.8.4 <5.9.0")));
    assert!(!peer_conflict(None, Some(">=4.8.4 <5.9.0")));
    assert!(!peer_conflict(Some("6.0.0"), None));
}

#[test]
fn fetched_versions_replace_and_pins_apply_to_all() {
    let mut m = VersionMap::new();
    m.insert("typescript".to_string(), "1.0.0".to_string());
    insert_fetched(&mut m, &vec![("typescript".to_string(), "5.9.2".to_string()), ("@types/node".to_string(), "24.0.0".to_string())]);
    assert_eq!(m.get("typescript").map(|s| s.as_str()), Some("5.9.2"));
    assert_eq!(m.get("_types_node").map(|s| s.as_str()), Some("24.0.0"));
    pin_all(&mut m, &vec!["typescript", "tslib"], "5.8.3");
    assert_eq!(m.get("typescript").map(|s| s.as_str()), Some("5.8.3"));
    assert_eq!(m.get("tslib").map(|s| s.as_str()), Some("5.8.3"));
    assert!(lists(&vec!["typescript", "typescript-eslint"], "typescript-eslint"));
    assert!(!lists(&vec!["typescript"], "angular-eslint"));
}

#[test]
fn extending_a_version_table_prefers_the_newer_versions() {
    let mut a = VersionMap::new();
    a.insert("react".to_string(), "18.0.0".to_string());
    a.insert("vite".to_string(), "5.0.0".to_string());
    let mut b = VersionMap::new();
    b.insert("vite".to_string(), "6.0.0".to_string());
    b.insert("stripe".to_string(), "17.0.0".to_string());
    a.extend(&b);
    assert_eq!(a.get("react").map(|s| s.as_str()), Some("18.0.0"));
    assert_eq!(a.get("vite").map(|s| s.as_str()), Some("6.0.0"));
    assert_eq!(a.get("stripe").map(|s| s.as_str()), Some("17.0.0"));
    assert_eq!(a.pairs().len(), 3);
}

#[test]
fn peer_reconciliation_steps_pin_the_anchor_into_the_range() {
    let co = vec!["typescript"];
    let mut empty = VersionMap::new();
    assert_eq!(peer_reconcile_step(&mut empty, "typescript", &co, None, None), ReconcileAction::Done);

    let mut m = VersionMap::new();
    m.insert("typescript".to_string(), "5.9.2".to_string());
    assert_eq!(peer_reconcile_step(&mut m, "typescript", &co, None, None), ReconcileAction::FetchPeerRange);
    assert_eq!(peer_reconcile_step(&mut m, "typescript", &co, Some(None), None), ReconcileAction::Done);
    assert_eq!(
        peer_reconcile_step(&mut m, "typescript", &co, Some(Some(">=4.8.4 <6.0.0")), None),
        ReconcileAction::Done
    );
    let range = Some(Some(">=4.8.4 <5.9.0"));
    assert_eq!(peer_reconcile_step(&mut m, "typescript", &co, range, None), ReconcileAction::FetchPublished);
    assert_eq!(m.get("typescript").map(|s| s.as_str()), Some("5.9.2"));
    let published: Vec<String> = ["5.7.0", "5.8.3", "5.9.2"].iter().map(|s| s.to_string()).collect();
    assert_eq!(peer_reconcile_step(&mut m, "typescript", &co, range, Some(&published)), ReconcileAction::Done);
    assert_eq!(m.get("typescript").map(|s| s.as_str()), Some("5.8.3"));
}

#[test]
fn tooling_reconciliation_steps_pick_a_release_that_accepts_the_anchor() {
    let mut m = VersionMap::new();
    m.insert(sanitize_key("@angular/cli"), "19.2.0".to_string());
    assert_eq!(
        tooling_reconcile_step(&mut m, "angular-eslint", "@angular/cli", None, None),
        ReconcileAction::FetchPeerRange
    );
    assert_eq!(
        tooling_reconcile_step(&mut m, "angular-eslint", "@angular/cli", Some(Some("^19.0.0")), None),
        ReconcileAction::Done
    );
    let range = Some(Some(">=20.0.0"));
    assert_eq!(
        tooling_reconcile_step(&mut m, "angular-eslint", "@angular/cli", range, None),
        ReconcileAction::FetchPublished
    );
    let decl = |v: &str, r: Option<&str>| PeerDeclaration { version: v.to_string(), peer_range: r.map(str::to_string) };
    let published = vec![
        decl("19.1.0", Some(">=19.0.0 <20.0.0")),
        decl("20.0.0", Some(">=20.0.0")),
        decl("19.3.0", Some("^19.0.0")),
        decl("19.4.0", None),
    ];
    assert_eq!(
        tooling_reconcile_step(&mut m, "angular-eslint", "@angular/cli", range, Some(&published)),
        ReconcileAction::Done
    );
    assert_eq!(m.get(&sanitize_key("angular-eslint")).map(|s| s.as_str()), Some("19.3.0"));
}
