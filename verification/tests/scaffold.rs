use m2s2_cli::scaffold::scaffolder::{
    direct_packages, InstallKind, LambdaConfig, RuntimeEntry, Runtimes, VersionConfig,
    VersionResolution,
};
use m2s2_cli::scaffold::{
    build_data, contains_partial_call, offline_versions, render, scaffold_file, template_fields, template_output, versions_for,
    ScaffoldPlan, Scaffolder, VersionSource,
};
use m2s2_cli::version_map::VersionMap;
use m2s2_cli::types::{ApiFramework, Frontend, Runtime};

fn runtimes() -> Runtimes {
    let e = |r: &str, h: &str| RuntimeEntry { runtime: r.into(), handler: h.into() };
    Runtimes {
        lambda: LambdaConfig {
            go: e("PROVIDED_AL2023", "bootstrap"),
            node: e("NODEJS_22_X", "index.handler"),
            python: e("PYTHON_3_12", "main.handler"),
        },
        versions: VersionConfig { go: "1.24".into(), node: "22".into(), python: "3.12".into() },
    }
}

#[test]
fn frontend_scaffolder_for_react() {
    let s = Scaffolder::for_frontend(Frontend::React, true, false);
    assert_eq!(s.template_prefix, "react");
    assert_eq!(s.dev_script, Some("dev"));
    assert!(s.backend_runtime.is_none());
    assert_eq!(s.install_kind, InstallKind::Npm);
    assert_eq!(s.auth_packages, vec!["aws-amplify", "@aws-amplify/ui-react"]);
    assert_eq!(s.billing_packages, vec!["@stripe/stripe-js", "@stripe/react-stripe-js"]);
    match &s.resolution {
        VersionResolution::Framework { anchor, supplemental } => {
            assert_eq!(*anchor, "@m2s2/react-lib");
            assert_eq!(supplemental.len(), 15);
            assert_eq!(supplemental[0], "typescript");
        }
        _ => panic!("expected framework resolution"),
    }
    let groups = s.extra_package_groups();
    assert_eq!(groups, vec![vec!["aws-amplify", "@aws-amplify/ui-react"]]);
}

#[test]
fn angular_scaffolder_starts_with_start_script() {
    let s = Scaffolder::for_frontend(Frontend::Angular, false, true);
    assert_eq!(s.template_prefix, "angular");
    assert_eq!(s.dev_script, Some("start"));
    assert_eq!(s.extra_package_groups(), vec![vec!["@stripe/stripe-js"]]);
}

#[test]
fn backend_scaffolder_for_express() {
    let rt = runtimes();
    let s = Scaffolder::for_backend(ApiFramework::Express, true, true, &rt);
    assert_eq!(s.template_prefix, "express");
    assert_eq!(s.backend_runtime, Some(Runtime::Node));
    assert_eq!(s.lambda_runtime, "NODEJS_22_X");
    assert_eq!(s.lambda_handler, "index.handler");
    assert_eq!(s.install_kind, InstallKind::Npm);
    match &s.resolution {
        VersionResolution::Direct { base, framework_extra } => {
            let all = direct_packages(base, framework_extra);
            assert_eq!(all.len(), 9);
            assert_eq!(all[7], "express");
            assert_eq!(all[8], "@types/express");
        }
        _ => panic!("expected direct resolution"),
    }
    assert_eq!(s.extra_package_groups().len(), 2);
}

#[test]
fn go_and_python_backends_install_their_own_way() {
    let rt = runtimes();
    let gin = Scaffolder::for_backend(ApiFramework::Gin, true, true, &rt);
    assert!(matches!(gin.resolution, VersionResolution::NotNeeded));
    assert!(gin.extra_package_groups().is_empty());
    let steps = gin.install_steps();
    assert_eq!(steps.len(), 1);
    assert_eq!(steps[0].program, "go");
    assert_eq!(steps[0].args, vec!["mod", "tidy"]);
    let flask = Scaffolder::for_backend(ApiFramework::Flask, false, false, &rt);
    assert_eq!(flask.lambda_runtime, "PYTHON_3_12");
    let steps = flask.install_steps();
    assert_eq!(steps.len(), 2);
    assert_eq!(steps[0].failure, "python3 -m venv failed");
    assert_eq!(steps[1].program, ".venv/bin/pip");
}

#[test]
fn fullstack_plan_writes_both_apps_then_the_shared_infra() {
    let rt = runtimes();
    let plan = ScaffoldPlan::Fullstack(
        Scaffolder::for_frontend(Frontend::Vue, true, false),
        Scaffolder::for_backend(ApiFramework::Gin, true, false, &rt),
    );
    let steps: Vec<(String, String)> = plan.steps("app").into_iter().map(|s| (s.dir, s.prefix)).collect();
    let expect: Vec<(String, String)> = [
        ("app/apps/web", "vue"),
        ("app/apps/web", "auth/vue"),
        ("app/apps/api", "gin"),
        ("app/apps/api", "auth/gin"),
        ("app", "fullstack"),
        ("app/cdk", "cdk"),
        ("app/cdk", "cdk-auth"),
        ("app/.github/workflows", "github-actions"),
        ("app", "root"),
    ]
    .iter()
    .map(|(a, b)| (a.to_string(), b.to_string()))
    .collect();
    assert_eq!(steps, expect);
    assert_eq!(
        plan.install_targets("app"),
        vec![("app/apps/web".to_string(), 0), ("app/apps/api".to_string(), 1)]
    );
}

#[test]
fn frontend_plan_without_options() {
    let plan = ScaffoldPlan::Frontend(Scaffolder::for_frontend(Frontend::React, false, false));
    let prefixes: Vec<String> = plan.steps("web").into_iter().map(|s| s.prefix).collect();
    assert_eq!(prefixes, vec!["react", "cdk", "github-actions", "root"]);
    assert_eq!(plan.install_targets("web"), vec![("web".to_string(), 0)]);
}

#[test]
fn template_paths_map_to_output_files() {
    assert_eq!(template_output("react/src/App.tsx.hbs", "react"), Some(("src/App.tsx".to_string(), true)));
    assert_eq!(template_output("react/_gitignore", "react"), Some((".gitignore".to_string(), false)));
    assert_eq!(template_output("react/_github/ci.yml", "react"), Some(("_github/.github/ci.yml".to_string(), false)));
    assert_eq!(template_output("react/public/logo.svg", "react"), Some(("public/logo.svg".to_string(), false)));
    assert_eq!(template_output("reactive/x.txt", "react"), None);
    assert_eq!(template_output("react/generate/x.hbs", "react"), None);
    assert_eq!(template_output("auth/react/a.ts.hbs", "auth/react"), Some(("a.ts".to_string(), true)));
}

#[test]
fn template_data_for_a_fullstack_project() {
    let rt = runtimes();
    let fe = Scaffolder::for_frontend(Frontend::Angular, true, false);
    let be = Scaffolder::for_backend(ApiFramework::Fastapi, false, true, &rt);
    let data = build_data("my-app", offline_versions(), Some(&fe), Some(&be), &rt);
    assert_eq!(data.pascal_name, "MyApp");
    assert!(data.auth);
    assert!(!data.billing);
    assert!(data.is_fullstack);
    assert!(data.backend_runtime_python);
    assert!(!data.backend_runtime_go);
    assert_eq!(data.lambda_handler, "main.handler");
    assert_eq!(data.frontend_dev_script, Some("start"));
    assert_eq!(data.python_version, "3.12");
    assert_eq!(data.versions.get("typescript").map(|s| s.as_str()), Some("0.0.0"));
}

#[test]
fn backend_only_data_takes_flags_from_the_backend() {
    let rt = runtimes();
    let be = Scaffolder::for_backend(ApiFramework::Echo, true, true, &rt);
    let data = build_data("api", offline_versions(), None, Some(&be), &rt);
    assert!(data.auth && data.billing);
    assert!(!data.has_frontend && data.has_backend && !data.is_fullstack);
    assert!(data.backend_runtime_go);
    assert_eq!(data.frontend_dev_script, None);
}

#[test]
fn offline_versions_cover_every_package_key_with_a_placeholder() {
    let v = offline_versions();
    assert_eq!(v.pairs().len(), 60);
    assert!(v.pairs().iter().all(|(_, ver)| ver == "0.0.0"));
    assert_eq!(v.get("_angular_core").map(|s| s.as_str()), Some("0.0.0"));
    assert_eq!(v.get("stripe").map(|s| s.as_str()), Some("0.0.0"));
    assert_eq!(v.get("jest_environment_jsdom").map(|s| s.as_str()), Some("0.0.0"));
    assert!(v.get("lodash").is_none());
}

fn map_of(pairs: &[(&str, &str)]) -> VersionMap {
    let mut m = VersionMap::new();
    for (k, v) in pairs {
        m.insert(k.to_string(), v.to_string());
    }
    m
}

fn strings(pairs: &[(&str, &str)]) -> Vec<(String, String)> {
    pairs.iter().map(|(k, v)| (k.to_string(), v.to_string())).collect()
}

#[test]
fn fullstack_apps_render_with_their_own_versions() {
    let rt = runtimes();
    let plan = ScaffoldPlan::Fullstack(
        Scaffolder::for_frontend(Frontend::React, false, false),
        Scaffolder::for_backend(ApiFramework::Express, false, false, &rt),
    );
    let sources: Vec<(String, VersionSource)> =
        plan.steps("app").into_iter().map(|s| (s.prefix, s.versions)).collect();
    assert_eq!(
        sources,
        vec![
            ("react".to_string(), VersionSource::First),
            ("express".to_string(), VersionSource::Second),
            ("fullstack".to_string(), VersionSource::Both),
            ("cdk".to_string(), VersionSource::Both),
            ("github-actions".to_string(), VersionSource::Both),
            ("root".to_string(), VersionSource::Both),
        ]
    );
    let single = ScaffoldPlan::Backend(Scaffolder::for_backend(ApiFramework::Gin, true, false, &rt));
    assert!(single.steps("api").iter().all(|s| s.versions == VersionSource::First));
}

#[test]
fn versions_for_picks_or_merges_the_maps() {
    let web = map_of(&[("typescript", "5.6.0"), ("react", "19.0.0")]);
    let api = map_of(&[("typescript", "5.4.0"), ("express", "5.1.0")]);
    let first = versions_for(VersionSource::First, &web, &api);
    assert_eq!(first.get("typescript").map(|s| s.as_str()), Some("5.6.0"));
    assert!(first.get("express").is_none());
    let second = versions_for(VersionSource::Second, &web, &api);
    assert_eq!(second.get("typescript").map(|s| s.as_str()), Some("5.4.0"));
    assert!(second.get("react").is_none());
    let both = versions_for(VersionSource::Both, &web, &api);
    assert_eq!(both.get("typescript").map(|s| s.as_str()), Some("5.4.0"));
    assert_eq!(both.get("react").map(|s| s.as_str()), Some("19.0.0"));
    assert_eq!(both.get("express").map(|s| s.as_str()), Some("5.1.0"));
}

#[test]
fn template_fields_put_versions_over_fields_and_the_dev_script_last() {
    // The versions come in key order, as the JSON object holding them iterates.
    let rt = runtimes();
    let fe = Scaffolder::for_frontend(Frontend::React, true, false);
    let versions = map_of(&[("react", "19.0.0"), ("auth", "9.9.9")]);
    let data = build_data("shop", versions, Some(&fe), None, &rt);
    let (texts, flags) = template_fields(&data);
    assert_eq!(
        texts,
        strings(&[
            ("name", "shop"),
            ("pascal_name", "Shop"),
            ("lambda_runtime", ""),
            ("lambda_handler", ""),
            ("go_version", "1.24"),
            ("node_version", "22"),
            ("python_version", "3.12"),
            ("auth", "9.9.9"),
            ("react", "19.0.0"),
            ("frontend_dev_script", "dev"),
        ])
    );
    let names: Vec<&str> = flags.iter().map(|(k, _)| k.as_str()).collect();
    assert_eq!(
        names,
        vec![
            "billing",
            "has_frontend",
            "has_backend",
            "is_fullstack",
            "backend_runtime_go",
            "backend_runtime_node",
            "backend_runtime_python",
        ]
    );
    assert_eq!(flags[1], ("has_frontend".to_string(), true));
    assert_eq!(flags[2], ("has_backend".to_string(), false));
}

#[test]
fn render_fills_fields_strictly() {
    let texts = strings(&[("name", "shop"), ("name", "store")]);
    let flags = vec![("auth".to_string(), true), ("billing".to_string(), false)];
    assert_eq!(render("Hello {{name}}", &texts, &flags), Some("Hello store".to_string()));
    assert_eq!(
        render("{{#if auth}}login{{/if}}{{#if billing}}pay{{/if}}", &texts, &flags),
        Some("login".to_string())
    );
    assert_eq!(render("Hello {{missing}}", &texts, &flags), None);
    assert_eq!(render("{{#if name}}", &texts, &flags), None);
}

#[test]
fn scaffold_file_copies_renders_or_skips() {
    let rt = runtimes();
    let be = Scaffolder::for_backend(ApiFramework::Express, false, false, &rt);
    let data = build_data("api", map_of(&[("express", "5.1.0")]), None, Some(&be), &rt);
    assert_eq!(
        scaffold_file("express/package.json.hbs", "{\"name\": \"{{name}}\", \"express\": \"{{express}}\"}", "express", &data),
        Some(Some(("package.json".to_string(), "{\"name\": \"api\", \"express\": \"5.1.0\"}".to_string())))
    );
    assert_eq!(
        scaffold_file("express/_gitignore", "node_modules {{name}}", "express", &data),
        Some(Some((".gitignore".to_string(), "node_modules {{name}}".to_string())))
    );
    assert_eq!(scaffold_file("express/a.ts.hbs", "{{nope}}", "express", &data), Some(None));
    assert_eq!(scaffold_file("react/a.ts.hbs", "{{name}}", "express", &data), None);
    assert_eq!(
        scaffold_file("express/a.ts.hbs", "{{#*inline \"p\"}}{{> p}}{{/inline}}{{> p}}", "express", &data),
        Some(None)
    );
    assert_eq!(
        scaffold_file("express/_b.txt", "{{> p}}", "express", &data),
        Some(Some((".b.txt".to_string(), "{{> p}}".to_string())))
    );
}

#[test]
fn partial_calls_are_recognised() {
    assert!(contains_partial_call("{{> header}}"));
    assert!(contains_partial_call("a {{~ # > layout}}b{{/layout}}"));
    assert!(contains_partial_call("{{#*inline \"p\"}}{{> p}}{{/inline}}"));
    assert!(!contains_partial_call("<div>{{name}}</div> {{#if auth}}x{{/if}} > y"));
    assert!(!contains_partial_call("{{ name }}>"));
    assert!(!contains_partial_call("{"));
}
