use m2s2_cli::commands::completions::{already_sourced, detect_shell, rc_addition, rc_paths, source_line, ShellKind};
use m2s2_cli::commands::generate::{angular_route_hint, component_plan, page_plan, service_plan, service_refusal};
use m2s2_cli::commands::new::{choices, initial_answers, next_question, plan_for, plan_label, project_config, NewArgs, Question};
use m2s2_cli::commands::publish::{publish_outcome, ready_line};
use m2s2_cli::commands::run::{
    backend_build, backend_dev, backend_lint, backend_test, check_plan, current_runtime, dev_script,
    exit_failure, needs_framework, prepend2, project_shape, python_dev_args, spawn_failure, Action,
    ProjectShape,
};
use m2s2_cli::commands::upgrade::release_is_newer;
use m2s2_cli::config::{detect_framework, framework_from_package_json, resolve_framework, M2S2Config};
use m2s2_cli::publish::target_kind::TargetKind;
use m2s2_cli::scaffold::scaffolder::{LambdaConfig, RuntimeEntry, Runtimes, VersionConfig};
use m2s2_cli::scaffold::ScaffoldPlan;
use m2s2_cli::types::{ApiFramework, Frontend, ProjectType, Runtime};

fn runtimes() -> Runtimes {
    let e = |r: &str, h: &str| RuntimeEntry { runtime: r.into(), handler: h.into() };
    Runtimes {
        lambda: LambdaConfig { go: e("go-rt", "bootstrap"), node: e("node-rt", "index.handler"), python: e("py-rt", "main.handler") },
        versions: VersionConfig { go: "1.24".into(), node: "22".into(), python: "3.12".into() },
    }
}

fn args() -> NewArgs {
    NewArgs {
        name: "my-app".into(),
        project_type: None,
        framework: None,
        runtime: None,
        api_framework: None,
        auth: None,
        billing: None,
        skip_install: false,
        offline: true,
    }
}

#[test]
fn new_asks_every_open_question_in_order() {
    let mut a = initial_answers(&args());
    assert_eq!(next_question(&a), Some(Question::ProjectType));
    a.project_type = Some(ProjectType::Fullstack);
    assert_eq!(next_question(&a), Some(Question::Framework));
    a.framework = Some(Frontend::Vue);
    assert_eq!(next_question(&a), Some(Question::Runtime));
    a.runtime = Some(Runtime::Python);
    assert_eq!(next_question(&a), Some(Question::ApiFramework(Runtime::Python)));
    a.api_framework = Some(ApiFramework::Fastapi);
    assert_eq!(next_question(&a), Some(Question::Auth));
    a.auth = Some(true);
    assert_eq!(next_question(&a), Some(Question::Billing));
    a.billing = Some(false);
    assert_eq!(next_question(&a), None);
    let c = choices(&a);
    let plan = plan_for(&c, &runtimes());
    assert_eq!(plan_label(&plan), "vue + fastapi");
    let cfg = project_config(&c);
    assert_eq!(cfg.framework.as_deref(), Some("vue"));
    assert_eq!(cfg.runtime.as_deref(), Some("python"));
    assert_eq!(cfg.project_type.as_deref(), Some("fullstack"));
    assert!(cfg.auth && !cfg.billing);
}

#[test]
fn new_flags_settle_everything_for_a_backend() {
    let mut a = args();
    a.project_type = Some(ProjectType::Backend);
    a.framework = Some(Frontend::React);
    a.api_framework = Some(ApiFramework::Gin);
    a.auth = Some("yes".into());
    a.billing = Some("no".into());
    let answers = initial_answers(&a);
    assert_eq!(next_question(&answers), None);
    let c = choices(&answers);
    assert!(c.framework.is_none());
    assert_eq!(c.runtime, Some(Runtime::Go));
    let plan = plan_for(&c, &runtimes());
    assert!(matches!(plan, ScaffoldPlan::Backend(_)));
    assert_eq!(plan_label(&plan), "gin");
    assert_eq!(project_config(&c).api_framework.as_deref(), Some("gin"));
}

#[test]
fn run_shapes_and_runtimes() {
    assert_eq!(project_shape("backend"), ProjectShape::Backend);
    assert_eq!(project_shape("fullstack"), ProjectShape::Fullstack);
    assert_eq!(project_shape("frontend"), ProjectShape::Frontend);
    assert_eq!(project_shape(""), ProjectShape::Frontend);
    assert_eq!(current_runtime(Some("node".into()), Some("gin".into())), "node");
    assert_eq!(current_runtime(None, Some("FastAPI".into())), "python");
    assert_eq!(current_runtime(None, Some("unknown".into())), "go");
    assert_eq!(current_runtime(None, None), "go");
    assert_eq!(dev_script("Angular"), "start");
    assert_eq!(dev_script("react"), "dev");
    assert_eq!(dev_script("svelte"), "dev");
    assert_eq!(python_dev_args("flask"), vec!["flask", "run", "--debug"]);
    assert_eq!(python_dev_args("gin"), vec!["main"]);
    assert_eq!(python_dev_args("nope"), vec!["main"]);
    assert_eq!(prepend2("check", ".", &vec!["--fix".to_string()]), vec!["check", ".", "--fix"]);
    assert!(needs_framework(Action::Build, ProjectShape::Frontend));
    assert!(needs_framework(Action::Dev, ProjectShape::Fullstack));
    assert!(!needs_framework(Action::Lint, ProjectShape::Fullstack));
    assert!(!needs_framework(Action::Dev, ProjectShape::Backend));
}

#[test]
fn backend_commands_per_runtime() {
    let extra = vec!["-v".to_string()];
    let go = backend_build("go", "npm", &extra).unwrap();
    assert_eq!(go.program, "go");
    assert_eq!(go.args, vec!["build", "-o", "bin/api", ".", "-v"]);
    assert_eq!(go.shown, "go build -o bin/api . -v");
    assert_eq!(go.name, "go build -o bin/api .");
    assert!(backend_build("python", "npm", &extra).is_none());
    let t = backend_test("python", "npm", &extra);
    assert_eq!(t.program, ".venv/bin/python3");
    assert_eq!(t.args, vec!["-m", "pytest", "-v"]);
    assert_eq!(t.name, "python3 -m pytest");
    let l = backend_lint("python", "npm", &vec![]);
    assert_eq!(l.args, vec!["-m", "ruff", "check", "."]);
    assert_eq!(l.shown, ".venv/bin/python3 -m ruff check .");
    let n = backend_test("node", "npm", &vec![]);
    assert_eq!(n.shown, "npm run test");
    let d = backend_dev("python", "fastapi", "npm");
    assert_eq!(d.args, vec!["-m", "uvicorn", "main:app", "--reload"]);
    assert_eq!(d.shown, ".venv/bin/python3 -m uvicorn main:app --reload");
    assert_eq!(backend_dev("go", "", "npm").spawn_error, "failed to spawn Go server");
    assert_eq!(spawn_failure("npm run build"), "failed to spawn `npm run build`");
    assert_eq!(exit_failure("go vet ./...", 2), "`go vet ./...` exited with code 2");
    assert_eq!(exit_failure("x", -1), "`x` exited with code -1");
}

#[test]
fn fullstack_checks_run_web_then_api() {
    let extra = vec!["--watch=false".to_string()];
    let plan = check_plan(Action::Test, ProjectShape::Fullstack, "react", "node", "npm", &extra);
    assert_eq!(plan.len(), 2);
    assert_eq!(plan[0].0, "apps/web");
    assert_eq!(plan[0].1.shown, "npm run test");
    assert_eq!(plan[1].0, "apps/api");
    assert_eq!(plan[1].1.shown, "npm run test --watch=false");
    let build = check_plan(Action::Build, ProjectShape::Backend, "", "python", "npm", &extra);
    assert!(build.is_empty());
    let lint = check_plan(Action::Lint, ProjectShape::Frontend, "vue", "go", "npm", &extra);
    assert_eq!(lint.len(), 1);
    assert_eq!(lint[0].1.args, vec!["run", "lint", "--watch=false"]);
}

#[test]
fn generate_component_paths_and_files() {
    let p = component_plan("hero-section", "react", None);
    assert_eq!(p.pascal, "HeroSection");
    assert_eq!(p.out_dir, "src/components/HeroSection");
    assert_eq!(p.files[0], ("generate/react/component.tsx.hbs", "HeroSection.tsx".to_string()));
    let a = component_plan("HeroSection", "angular", None);
    assert_eq!(a.out_dir, "src/app/components/hero-section");
    assert_eq!(a.files[1].1, "hero-section.component.html");
    let custom = component_plan("card", "vue", Some("src/features"));
    assert_eq!(custom.out_dir, "src/features/Card");
}

#[test]
fn generate_page_and_service() {
    let p = page_plan("user-profile", "angular", None);
    assert_eq!(p.out_dir, "src/app/pages/user-profile");
    assert_eq!(p.files[0].1, "user-profile.component.ts");
    assert_eq!(
        angular_route_hint(&p.kebab, &p.pascal),
        "    { path: 'user-profile', loadComponent: () => import('./pages/user-profile/user-profile.component').then(m => m.UserProfilePageComponent) }"
    );
    assert_eq!(
        p.fields(true),
        vec![
            ("name".to_string(), "UserProfile".to_string()),
            ("selector".to_string(), "user-profile".to_string()),
            ("file_name".to_string(), "user-profile".to_string()),
        ]
    );
    let r = page_plan("Dashboard", "react", Some("src/views"));
    assert_eq!(r.out_dir, "src/views/Dashboard");
    assert_eq!(r.files[0].1, "DashboardPage.tsx");
    let s = service_plan("user-data", "angular", None).unwrap();
    assert_eq!(s.out_dir, "src/app/services");
    assert_eq!(
        s.fields(false),
        vec![("name".to_string(), "UserData".to_string()), ("file_name".to_string(), "user-data".to_string())]
    );
    assert_eq!(s.files, vec![("generate/angular/service.ts.hbs", "user-data.service.ts".to_string())]);
    assert!(service_plan("auth", "react", None).is_none());
    assert_eq!(
        service_refusal("react", "Auth"),
        "generate service is for Angular projects (detected: react). For React, create a custom hook (useAuth); for Vue, create a composable (useAuth)."
    );
}

#[test]
fn completions_shell_detection_and_rc_files() {
    assert_eq!(detect_shell("/bin/zsh").unwrap(), ShellKind::Zsh);
    assert_eq!(detect_shell("/usr/local/bin/fish").unwrap(), ShellKind::Fish);
    assert_eq!(detect_shell("bash").unwrap(), ShellKind::Bash);
    assert_eq!(
        detect_shell("/bin/tcsh").unwrap_err(),
        "shell 'tcsh' is not supported — pass one of: zsh, bash, fish, elvish, powershell"
    );
    let (f, rc) = rc_paths(ShellKind::Zsh, "/home/u").unwrap();
    assert_eq!(f, "/home/u/.m2s2-completions.zsh");
    assert_eq!(rc, "/home/u/.zshrc");
    assert!(rc_paths(ShellKind::Fish, "/home/u").is_err());
    let line = source_line(&f);
    assert_eq!(line, "source /home/u/.m2s2-completions.zsh");
    assert!(already_sourced("x\nsource /home/u/.m2s2-completions.zsh\n", &line));
    assert!(!already_sourced("", &line));
    assert_eq!(rc_addition(&line), "\n# m2s2 shell completions\nsource /home/u/.m2s2-completions.zsh\n");
}

#[test]
fn upgrade_compares_versions() {
    assert_eq!(release_is_newer("0.4.0", "v0.5.1"), Ok(true));
    assert_eq!(release_is_newer("0.4.0", "0.4.0"), Ok(false));
    assert_eq!(release_is_newer("1.0.0", "v0.9.0"), Ok(false));
    assert_eq!(release_is_newer("1.0.0", "nightly").unwrap_err(), "unexpected release tag: nightly");
}

#[test]
fn framework_resolution_and_detection() {
    assert_eq!(resolve_framework(Some("vue".into()), || panic!("not consulted")), Ok("vue".to_string()));
    assert_eq!(resolve_framework(None, || Some("react".to_string())), Ok("react".to_string()));
    assert_eq!(
        resolve_framework(None, || None).unwrap_err(),
        "could not detect framework — run from your project root or pass --framework"
    );
    assert_eq!(
        framework_from_package_json(r#"{"dependencies": {"@m2s2/ng-lib": "^1.0.0"}}"#),
        Some("angular".to_string())
    );
    assert_eq!(framework_from_package_json(r#"{"devDependencies": {"@m2s2/ng-lib": "1"}}"#), None);
    assert_eq!(framework_from_package_json("not json"), None);
    let cfg = M2S2Config { framework: Some("react".into()), ..Default::default() };
    assert_eq!(detect_framework(Some(cfg), || panic!("not read")), Some("react".to_string()));
    assert_eq!(
        detect_framework(Some(M2S2Config::default()), || Some(r#"{"dependencies":{"@m2s2/vue-lib":"*"}}"#.to_string())),
        Some("vue".to_string())
    );
    assert_eq!(detect_framework(None, || None), None);
}

#[test]
fn publish_outcome_and_preflight_lines() {
    assert!(publish_outcome(0).is_ok());
    assert_eq!(publish_outcome(2).unwrap_err(), "one or more targets failed to publish");
    assert_eq!(ready_line(TargetKind::Devto), "devto — ready to publish");
}
