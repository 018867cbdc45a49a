//! How each frontend framework and backend API framework is scaffolded: its template prefix,
//! where its package versions come from, its extra auth and billing packages, and how its
//! dependencies are installed.

use crate::types::{ApiFramework, Frontend, Runtime};
use vstd::prelude::*;

verus! {

/// The Lambda runtime and handler the CDK stack uses for one backend runtime.
pub struct RuntimeEntry {
    pub runtime: String,
    pub handler: String,
}

pub struct LambdaConfig {
    pub go: RuntimeEntry,
    pub node: RuntimeEntry,
    pub python: RuntimeEntry,
}

/// The language versions the generated projects target.
pub struct VersionConfig {
    pub go: String,
    pub node: String,
    pub python: String,
}

/// The runtime configuration the tool ships with (`config/runtimes.toml`).
pub struct Runtimes {
    pub lambda: LambdaConfig,
    pub versions: VersionConfig,
}

impl Runtimes {
    /// The Lambda entry for backend runtime `rt`.
    pub open spec fn entry_of(self, rt: Runtime) -> RuntimeEntry {
        match rt {
            Runtime::Go => self.lambda.go,
            Runtime::Node => self.lambda.node,
            Runtime::Python => self.lambda.python,
        }
    }
}

/// Where a scaffolder's npm package versions come from.
pub enum VersionResolution {
    /// Frontend: versions anchored to an m2s2 library package, plus supplemental packages.
    Framework { anchor: &'static str, supplemental: Vec<&'static str> },
    /// Node backend: a flat list of packages resolved directly.
    Direct { base: Vec<&'static str>, framework_extra: Vec<&'static str> },
    /// Go and Python: no npm resolution.
    NotNeeded,
}

#[derive(Clone, Copy, Debug, PartialEq, Eq, Structural)]
pub enum InstallKind {
    Npm,
    GoModTidy,
    PythonVenv,
}

pub struct Scaffolder {
    pub template_prefix: &'static str,
    pub auth: bool,
    pub billing: bool,
    /// npm script name for `m2s2 dev`; `None` for backend scaffolders.
    pub dev_script: Option<&'static str>,
    /// CDK Lambda runtime string; empty for frontend.
    pub lambda_runtime: String,
    /// CDK Lambda handler string; empty for frontend.
    pub lambda_handler: String,
    /// Backend runtime; `None` for frontend scaffolders.
    pub backend_runtime: Option<Runtime>,
    pub resolution: VersionResolution,
    pub install_kind: InstallKind,
    pub auth_packages: Vec<&'static str>,
    pub billing_packages: Vec<&'static str>,
}

/// The texts of a list of names.
pub open spec fn texts(v: Seq<&'static str>) -> Seq<Seq<char>> {
    v.map_values(|s: &'static str| s@)
}

pub open spec fn frontend_anchor(f: Frontend) -> Seq<char> {
    match f {
        Frontend::React => "@m2s2/react-lib"@,
        Frontend::Angular => "@m2s2/ng-lib"@,
        Frontend::Vue => "@m2s2/vue-lib"@,
    }
}

pub open spec fn frontend_supplemental(f: Frontend) -> Seq<Seq<char>> {
    match f {
        Frontend::React => seq![
            "typescript"@,
            "vite"@,
            "vitest"@,
            "@types/react"@,
            "@types/react-dom"@,
            "@vitejs/plugin-react"@,
            "@testing-library/react"@,
            "@testing-library/jest-dom"@,
            "jsdom"@,
            "sass-embedded"@,
            "eslint"@,
            "@eslint/js"@,
            "typescript-eslint"@,
            "eslint-plugin-react-hooks"@,
            "eslint-plugin-react-refresh"@,
        ],
        Frontend::Angular => seq![
            "rxjs"@,
            "zone.js"@,
            "typescript"@,
            "tslib"@,
            "jest"@,
            "jest-preset-angular"@,
            "@types/jest"@,
            "eslint"@,
            "@eslint/js"@,
            "typescript-eslint"@,
            "angular-eslint"@,
        ],
        Frontend::Vue => seq![
            "typescript"@,
            "vite"@,
            "vitest"@,
            "@vitejs/plugin-vue"@,
            "@testing-library/vue"@,
            "@testing-library/jest-dom"@,
            "jsdom"@,
            "vue-tsc"@,
            "sass-embedded"@,
            "eslint"@,
            "@eslint/js"@,
            "typescript-eslint"@,
            "eslint-plugin-vue"@,
        ],
    }
}

pub open spec fn frontend_auth_packages(f: Frontend) -> Seq<Seq<char>> {
    match f {
        Frontend::React => seq!["aws-amplify"@, "@aws-amplify/ui-react"@],
        Frontend::Angular => seq!["aws-amplify"@, "@aws-amplify/ui-angular"@],
        Frontend::Vue => seq!["aws-amplify"@, "@aws-amplify/ui-vue"@],
    }
}

pub open spec fn frontend_billing_packages(f: Frontend) -> Seq<Seq<char>> {
    match f {
        Frontend::React => seq!["@stripe/stripe-js"@, "@stripe/react-stripe-js"@],
        _ => seq!["@stripe/stripe-js"@],
    }
}

/// The packages every Node backend resolves.
pub open spec fn node_base() -> Seq<Seq<char>> {
    seq![
        "@types/node"@,
        "tsx"@,
        "typescript"@,
        "vitest"@,
        "eslint"@,
        "@eslint/js"@,
        "typescript-eslint"@,
    ]
}

pub open spec fn framework_extra(a: ApiFramework) -> Seq<Seq<char>> {
    match a {
        ApiFramework::Express => seq!["express"@, "@types/express"@],
        ApiFramework::Fastify => seq!["fastify"@],
        _ => seq![],
    }
}

pub open spec fn backend_auth_packages(a: ApiFramework) -> Seq<Seq<char>> {
    match a {
        ApiFramework::Express => seq!["jsonwebtoken"@, "@types/jsonwebtoken"@, "jwks-rsa"@],
        ApiFramework::Fastify => seq!["@fastify/jwt"@, "jwks-rsa"@],
        _ => seq![],
    }
}

pub open spec fn backend_billing_packages(a: ApiFramework) -> Seq<Seq<char>> {
    match a {
        ApiFramework::Express | ApiFramework::Fastify => seq!["stripe"@],
        _ => seq![],
    }
}

pub open spec fn install_kind_of(rt: Runtime) -> InstallKind {
    match rt {
        Runtime::Go => InstallKind::GoModTidy,
        Runtime::Node => InstallKind::Npm,
        Runtime::Python => InstallKind::PythonVenv,
    }
}

fn supplemental_list(f: Frontend) -> (r: Vec<&'static str>)
    ensures
        texts(r@) == frontend_supplemental(f),
{
    let r = match f {
        Frontend::React => vec![
            "typescript",
            "vite",
            "vitest",
            "@types/react",
            "@types/react-dom",
            "@vitejs/plugin-react",
            "@testing-library/react",
            "@testing-library/jest-dom",
            "jsdom",
            "sass-embedded",
            "eslint",
            "@eslint/js",
            "typescript-eslint",
            "eslint-plugin-react-hooks",
            "eslint-plugin-react-refresh",
        ],
        Frontend::Angular => vec![
            "rxjs",
            "zone.js",
            "typescript",
            "tslib",
            "jest",
            "jest-preset-angular",
            "@types/jest",
            "eslint",
            "@eslint/js",
            "typescript-eslint",
            "angular-eslint",
        ],
        Frontend::Vue => vec![
            "typescript",
            "vite",
            "vitest",
            "@vitejs/plugin-vue",
            "@testing-library/vue",
            "@testing-library/jest-dom",
            "jsdom",
            "vue-tsc",
            "sass-embedded",
            "eslint",
            "@eslint/js",
            "typescript-eslint",
            "eslint-plugin-vue",
        ],
    };
    assert(texts(r@) =~= frontend_supplemental(f));
    r
}

fn frontend_packages(f: Frontend) -> (r: (&'static str, Vec<&'static str>, Vec<&'static str>))
    ensures
        r.0@ == frontend_anchor(f),
        texts(r.1@) == frontend_auth_packages(f),
        texts(r.2@) == frontend_billing_packages(f),
{
    let r = match f {
        Frontend::React => (
            "@m2s2/react-lib",
            vec!["aws-amplify", "@aws-amplify/ui-react"],
            vec!["@stripe/stripe-js", "@stripe/react-stripe-js"],
        ),
        Frontend::Angular => (
            "@m2s2/ng-lib",
            vec!["aws-amplify", "@aws-amplify/ui-angular"],
            vec!["@stripe/stripe-js"],
        ),
        Frontend::Vue => (
            "@m2s2/vue-lib",
            vec!["aws-amplify", "@aws-amplify/ui-vue"],
            vec!["@stripe/stripe-js"],
        ),
    };
    assert(texts(r.1@) =~= frontend_auth_packages(f));
    assert(texts(r.2@) =~= frontend_billing_packages(f));
    r
}

fn node_base_list() -> (r: Vec<&'static str>)
    ensures
        texts(r@) == node_base(),
{
    let r = vec![
        "@types/node",
        "tsx",
        "typescript",
        "vitest",
        "eslint",
        "@eslint/js",
        "typescript-eslint",
    ];
    assert(texts(r@) =~= node_base());
    r
}

fn backend_packages(a: ApiFramework) -> (r: (Vec<&'static str>, Vec<&'static str>, Vec<&'static str>))
    ensures
        texts(r.0@) == framework_extra(a),
        texts(r.1@) == backend_auth_packages(a),
        texts(r.2@) == backend_billing_packages(a),
{
    let r: (Vec<&'static str>, Vec<&'static str>, Vec<&'static str>) = match a {
        ApiFramework::Express => (
            vec!["express", "@types/express"],
            vec!["jsonwebtoken", "@types/jsonwebtoken", "jwks-rsa"],
            vec!["stripe"],
        ),
        ApiFramework::Fastify => (vec!["fastify"], vec!["@fastify/jwt", "jwks-rsa"], vec!["stripe"]),
        _ => (Vec::new(), Vec::new(), Vec::new()),
    };
    assert(texts(r.0@) =~= framework_extra(a));
    assert(texts(r.1@) =~= backend_auth_packages(a));
    assert(texts(r.2@) =~= backend_billing_packages(a));
    r
}

/// `r` is the scaffolder for the frontend framework `framework`.
pub open spec fn frontend_scaffolder(r: Scaffolder, framework: Frontend, auth: bool, billing: bool) -> bool {
    &&& r.template_prefix@ == framework.name_of()
    &&& r.auth == auth
    &&& r.billing == billing
    &&& r.dev_script matches Some(s) && s@ == framework.dev_script_of()
    &&& r.lambda_runtime@ == Seq::<char>::empty()
    &&& r.lambda_handler@ == Seq::<char>::empty()
    &&& r.backend_runtime is None
    &&& r.resolution matches VersionResolution::Framework { anchor, supplemental } && anchor@
        == frontend_anchor(framework) && texts(supplemental@) == frontend_supplemental(framework)
    &&& r.install_kind == InstallKind::Npm
    &&& texts(r.auth_packages@) == frontend_auth_packages(framework)
    &&& texts(r.billing_packages@) == frontend_billing_packages(framework)
}

/// `r` is the scaffolder for the backend API framework `api_framework`.
pub open spec fn backend_scaffolder(
    r: Scaffolder,
    api_framework: ApiFramework,
    auth: bool,
    billing: bool,
    runtimes: Runtimes,
) -> bool {
    let rt = api_framework.runtime_of();
    &&& r.template_prefix@ == api_framework.name_of()
    &&& r.auth == auth
    &&& r.billing == billing
    &&& r.dev_script is None
    &&& r.lambda_runtime == runtimes.entry_of(rt).runtime
    &&& r.lambda_handler == runtimes.entry_of(rt).handler
    &&& r.backend_runtime == Some(rt)
    &&& rt == Runtime::Node ==> (r.resolution matches VersionResolution::Direct {
        base,
        framework_extra: extra,
    } && texts(base@) == node_base() && texts(extra@) == framework_extra(api_framework))
    &&& rt != Runtime::Node ==> r.resolution is NotNeeded
    &&& r.install_kind == install_kind_of(rt)
    &&& texts(r.auth_packages@) == backend_auth_packages(api_framework)
    &&& texts(r.billing_packages@) == backend_billing_packages(api_framework)
}

impl Scaffolder {
    /// The scaffolder for a frontend framework: its templates are named after it, its versions
    /// are anchored to the framework's m2s2 library, and its dependencies install with npm.
    pub fn for_frontend(framework: Frontend, auth: bool, billing: bool) -> (r: Self)
        ensures
            frontend_scaffolder(r, framework, auth, billing),
    {
        let (anchor, auth_packages, billing_packages) = frontend_packages(framework);
        Scaffolder {
            template_prefix: framework.name(),
            auth,
            billing,
            dev_script: Some(framework.dev_script()),
            lambda_runtime: String::new(),
            lambda_handler: String::new(),
            backend_runtime: None,
            resolution: VersionResolution::Framework {
                anchor,
                supplemental: supplemental_list(framework),
            },
            install_kind: InstallKind::Npm,
            auth_packages,
            billing_packages,
        }
    }

    /// The scaffolder for a backend API framework: its templates are named after it, its
    /// Lambda runtime and handler come from the runtime configuration of its language, Node
    /// frameworks resolve their npm packages directly, and each language installs its own way.
    pub fn for_backend(api_framework: ApiFramework, auth: bool, billing: bool, runtimes: &Runtimes) -> (r:
        Self)
        ensures
            backend_scaffolder(r, api_framework, auth, billing, *runtimes),
    {
        let rt = api_framework.runtime();
        let entry = match rt {
            Runtime::Go => &runtimes.lambda.go,
            Runtime::Node => &runtimes.lambda.node,
            Runtime::Python => &runtimes.lambda.python,
        };
        let (extra, auth_packages, billing_packages) = backend_packages(api_framework);
        let resolution = match rt {
            Runtime::Node => VersionResolution::Direct { base: node_base_list(), framework_extra: extra },
            _ => VersionResolution::NotNeeded,
        };
        let install_kind = match rt {
            Runtime::Go => InstallKind::GoModTidy,
            Runtime::Node => InstallKind::Npm,
            Runtime::Python => InstallKind::PythonVenv,
        };
        Scaffolder {
            template_prefix: api_framework.name(),
            auth,
            billing,
            dev_script: None,
            lambda_runtime: entry.runtime.clone(),
            lambda_handler: entry.handler.clone(),
            backend_runtime: Some(rt),
            resolution,
            install_kind,
            auth_packages,
            billing_packages,
        }
    }
}


/// One command of a dependency install: the progress message shown while it runs, the program
/// and its arguments, and the error when it fails.
pub struct InstallStep {
    pub message: &'static str,
    pub program: &'static str,
    pub args: Vec<&'static str>,
    pub failure: &'static str,
}

/// An install step as texts: message, program, arguments and failure.
pub open spec fn step_view(s: InstallStep) -> (Seq<char>, Seq<char>, Seq<Seq<char>>, Seq<char>) {
    (s.message@, s.program@, texts(s.args@), s.failure@)
}

/// The commands that install a project's dependencies, run in order in the project directory.
pub open spec fn install_plan(kind: InstallKind) -> Seq<(Seq<char>, Seq<char>, Seq<Seq<char>>, Seq<char>)> {
    match kind {
        InstallKind::Npm => seq![
            ("Running npm install…"@, "npm"@, seq!["install"@], "npm install failed"@),
        ],
        InstallKind::GoModTidy => seq![
            ("Running go mod tidy…"@, "go"@, seq!["mod"@, "tidy"@], "go mod tidy failed"@),
        ],
        InstallKind::PythonVenv => seq![
            (
                "Creating virtual environment…"@,
                "python3"@,
                seq!["-m"@, "venv"@, ".venv"@],
                "python3 -m venv failed"@,
            ),
            (
                "Running pip install…"@,
                ".venv/bin/pip"@,
                seq!["install"@, "-r"@, "requirements.txt"@],
                "pip install failed"@,
            ),
        ],
    }
}

/// The package groups resolved besides the main ones: the auth packages when auth is on and
/// the billing packages when billing is on, each only when there are any.
pub open spec fn extra_groups(s: Scaffolder) -> Seq<Seq<Seq<char>>> {
    let a: Seq<Seq<Seq<char>>> = if s.auth && s.auth_packages.len() > 0 {
        seq![texts(s.auth_packages@)]
    } else {
        seq![]
    };
    let b: Seq<Seq<Seq<char>>> = if s.billing && s.billing_packages.len() > 0 {
        seq![texts(s.billing_packages@)]
    } else {
        seq![]
    };
    a + b
}

fn copy_names(v: &Vec<&'static str>) -> (r: Vec<&'static str>)
    ensures
        r@ == v@,
{
    let mut out: Vec<&'static str> = Vec::new();
    let mut i: usize = 0;
    while i < v.len()
        invariant
            i <= v.len(),
            out@ == v@.take(i as int),
        decreases v.len() - i,
    {
        out.push(v[i]);
        assert(out@ =~= v@.take(i + 1));
        i = i + 1;
    }
    assert(v@.take(v.len() as int) =~= v@);
    out
}

impl Scaffolder {
    /// The install commands for this scaffolder's kind of project.
    pub fn install_steps(&self) -> (r: Vec<InstallStep>)
        ensures
            r@.map_values(|s: InstallStep| step_view(s)) == install_plan(self.install_kind),
    {
        let r = match self.install_kind {
            InstallKind::Npm => vec![
                InstallStep {
                    message: "Running npm install…",
                    program: "npm",
                    args: vec!["install"],
                    failure: "npm install failed",
                },
            ],
            InstallKind::GoModTidy => vec![
                InstallStep {
                    message: "Running go mod tidy…",
                    program: "go",
                    args: vec!["mod", "tidy"],
                    failure: "go mod tidy failed",
                },
            ],
            InstallKind::PythonVenv => vec![
                InstallStep {
                    message: "Creating virtual environment…",
                    program: "python3",
                    args: vec!["-m", "venv", ".venv"],
                    failure: "python3 -m venv failed",
                },
                InstallStep {
                    message: "Running pip install…",
                    program: ".venv/bin/pip",
                    args: vec!["install", "-r", "requirements.txt"],
                    failure: "pip install failed",
                },
            ],
        };
        proof {
            let rv = r@.map_values(|s: InstallStep| step_view(s));
            assert forall|i: int| 0 <= i < r@.len() implies texts(#[trigger] r@[i].args@)
                == install_plan(self.install_kind)[i].2 by {
                assert(texts(r@[i].args@) =~= install_plan(self.install_kind)[i].2);
            }
            assert(rv =~= install_plan(self.install_kind));
        }
        r
    }

    /// The auth and billing package groups to resolve on top of the main ones.
    pub fn extra_package_groups(&self) -> (r: Vec<Vec<&'static str>>)
        ensures
            r@.map_values(|g: Vec<&'static str>| texts(g@)) == extra_groups(*self),
    {
        let mut r: Vec<Vec<&'static str>> = Vec::new();
        if self.auth && self.auth_packages.len() > 0 {
            r.push(copy_names(&self.auth_packages));
        }
        if self.billing && self.billing_packages.len() > 0 {
            r.push(copy_names(&self.billing_packages));
        }
        assert(r@.map_values(|g: Vec<&'static str>| texts(g@)) =~= extra_groups(*self));
        r
    }
}

/// The packages a direct resolution fetches: the base list, then the framework's own.
pub fn direct_packages(base: &Vec<&'static str>, extra: &Vec<&'static str>) -> (r: Vec<&'static str>)
    ensures
        r@ == base@ + extra@,
{
    let mut out = copy_names(base);
    let mut i: usize = 0;
    while i < extra.len()
        invariant
            i <= extra.len(),
            out@ == base@ + extra@.take(i as int),
        decreases extra.len() - i,
    {
        out.push(extra[i]);
        assert(out@ =~= base@ + extra@.take(i + 1));
        i = i + 1;
    }
    assert(extra@.take(extra.len() as int) =~= extra@);
    out
}


// ── Laws ─────────────────────────────────────────────────────────────────────

/// A frontend's versions are anchored to its m2s2 library (`@m2s2/<name>-lib`, `ng` for
/// Angular); auth adds `aws-amplify` and the framework's Amplify UI package
/// (`@aws-amplify/ui-<name>`); billing adds `@stripe/stripe-js` (with `@stripe/react-stripe-js`
/// for React alone); every frontend resolves TypeScript and ESLint.
pub proof fn law_frontend_packages(f: Frontend)
    ensures
        frontend_anchor(f) == "@m2s2/"@ + (match f {
            Frontend::Angular => "ng"@,
            _ => f.name_of(),
        }) + "-lib"@,
        frontend_auth_packages(f) == seq!["aws-amplify"@, "@aws-amplify/ui-"@ + f.name_of()],
        frontend_billing_packages(f)[0] == "@stripe/stripe-js"@,
        frontend_billing_packages(f).len() == (if f == Frontend::React { 2int } else { 1int }),
        frontend_supplemental(f).contains("typescript"@),
        frontend_supplemental(f).contains("eslint"@),
{
    reveal_strlit("react");
    reveal_strlit("angular");
    reveal_strlit("vue");
    reveal_strlit("ng");
    reveal_strlit("@m2s2/");
    reveal_strlit("-lib");
    reveal_strlit("@m2s2/react-lib");
    reveal_strlit("@m2s2/ng-lib");
    reveal_strlit("@m2s2/vue-lib");
    reveal_strlit("@aws-amplify/ui-");
    reveal_strlit("@aws-amplify/ui-react");
    reveal_strlit("@aws-amplify/ui-angular");
    reveal_strlit("@aws-amplify/ui-vue");
    let sup = frontend_supplemental(f);
    match f {
        Frontend::React => {
            assert("@m2s2/"@ + "react"@ + "-lib"@ =~= "@m2s2/react-lib"@);
            assert("@aws-amplify/ui-"@ + "react"@ =~= "@aws-amplify/ui-react"@);
            assert(sup[0] == "typescript"@);
            assert(sup[10] == "eslint"@);
        },
        Frontend::Angular => {
            assert("@m2s2/"@ + "ng"@ + "-lib"@ =~= "@m2s2/ng-lib"@);
            assert("@aws-amplify/ui-"@ + "angular"@ =~= "@aws-amplify/ui-angular"@);
            assert(sup[2] == "typescript"@);
            assert(sup[7] == "eslint"@);
        },
        Frontend::Vue => {
            assert("@m2s2/"@ + "vue"@ + "-lib"@ =~= "@m2s2/vue-lib"@);
            assert("@aws-amplify/ui-"@ + "vue"@ =~= "@aws-amplify/ui-vue"@);
            assert(sup[0] == "typescript"@);
            assert(sup[9] == "eslint"@);
        },
    }
}

/// A backend scaffolder follows its framework's language: Go frameworks (Gin, Echo, Fiber)
/// install with `go mod tidy` and resolve no npm packages, Python ones (FastAPI, Flask) in a
/// virtual environment with `pip`, Node ones (Express, Fastify) with `npm`, resolving the Node
/// base packages (TypeScript among them) and the framework's own package.
pub proof fn law_backend_follows_its_language(
    r: Scaffolder,
    a: ApiFramework,
    auth: bool,
    billing: bool,
    runtimes: Runtimes,
)
    requires
        backend_scaffolder(r, a, auth, billing, runtimes),
    ensures
        (a == ApiFramework::Gin || a == ApiFramework::Echo || a == ApiFramework::Fiber) ==> r.install_kind
            == InstallKind::GoModTidy && r.resolution is NotNeeded && r.backend_runtime == Some(Runtime::Go),
        (a == ApiFramework::Fastapi || a == ApiFramework::Flask) ==> r.install_kind == InstallKind::PythonVenv
            && r.resolution is NotNeeded && r.backend_runtime == Some(Runtime::Python),
        (a == ApiFramework::Express || a == ApiFramework::Fastify) ==> r.install_kind == InstallKind::Npm
            && r.backend_runtime == Some(Runtime::Node) && (r.resolution matches VersionResolution::Direct {
            base,
            framework_extra: extra,
        } && texts(base@).contains("typescript"@) && texts(extra@).contains(a.name_of())),
        install_plan(r.install_kind)[0].1 == (match r.install_kind {
            InstallKind::Npm => "npm"@,
            InstallKind::GoModTidy => "go"@,
            InstallKind::PythonVenv => "python3"@,
        }),
{
    reveal_strlit("express");
    reveal_strlit("fastify");
    if a == ApiFramework::Express || a == ApiFramework::Fastify {
        assert(node_base()[2] == "typescript"@);
        assert(framework_extra(a)[0] == a.name_of());
    }
}

/// Besides its main packages a scaffolder resolves its auth packages exactly when auth is on and
/// it has some, then its billing packages exactly when billing is on and it has some.
pub proof fn law_extra_groups_follow_the_options(s: Scaffolder)
    ensures
        extra_groups(s).len() == (if s.auth && s.auth_packages.len() > 0 { 1int } else { 0int }) + (if s.billing
            && s.billing_packages.len() > 0 { 1int } else { 0int }),
        s.auth && s.auth_packages.len() > 0 ==> extra_groups(s)[0] == texts(s.auth_packages@),
        s.billing && s.billing_packages.len() > 0 ==> extra_groups(s)[extra_groups(s).len() - 1] == texts(
            s.billing_packages@,
        ),
{
}

} // verus!
