//! `m2s2 dev`, `build`, `test` and `lint`: which command runs where, for the kind of project
//! and backend runtime at hand.

use crate::text::{cat, cat3, decimal, decimal_string, join_first, join_sep, owned, str_equal};
use crate::types::{ApiFramework, Frontend};
use vstd::prelude::*;

verus! {

pub struct DevArgs {
    /// Frontend framework override (frontend/fullstack only)
    pub framework: Option<String>,
    /// Extra arguments passed through to the underlying dev server
    pub extra: Vec<String>,
}

pub struct BuildArgs {
    /// Frontend framework override (frontend/fullstack only)
    pub framework: Option<String>,
    /// Extra arguments passed through to the underlying build tool
    pub extra: Vec<String>,
}

pub struct TestArgs {
    /// Frontend framework override (frontend/fullstack only)
    pub framework: Option<String>,
    /// Extra arguments passed through to the test runner
    pub extra: Vec<String>,
}

pub struct LintArgs {
    /// Frontend framework override (frontend/fullstack only)
    pub framework: Option<String>,
    /// Extra arguments passed through to the linter
    pub extra: Vec<String>,
}

#[derive(Clone, Copy, Debug, PartialEq, Eq, Structural)]
pub enum ProjectShape {
    Frontend,
    Backend,
    Fullstack,
}

#[derive(Clone, Copy, Debug, PartialEq, Eq, Structural)]
pub enum Action {
    Dev,
    Build,
    Test,
    Lint,
}

/// A command to run: the program, its arguments, the line shown before it runs, and how
/// failures name it.
pub struct Invocation {
    pub program: String,
    pub args: Vec<String>,
    pub shown: String,
    pub name: String,
}

/// The texts of a list of strings.
pub open spec fn strings(v: Seq<String>) -> Seq<Seq<char>> {
    v.map_values(|s: String| s@)
}

/// An invocation as texts: program, arguments, shown line and name.
pub open spec fn inv_view(i: Invocation) -> (Seq<char>, Seq<Seq<char>>, Seq<char>, Seq<char>) {
    (i.program@, strings(i.args@), i.shown@, i.name@)
}

/// `" " + extra.join(" ")`, or nothing when there are no extra arguments.
pub open spec fn extra_suffix(extra: Seq<Seq<char>>) -> Seq<char> {
    if extra.len() == 0 {
        seq![]
    } else {
        " "@ + join_sep(extra, " "@)
    }
}

/// The invocation with program `program`, arguments `base` then `extra`, shown as
/// `shown_head` followed by the extra arguments, and named `name`.
pub open spec fn invocation_spec(
    program: Seq<char>,
    base: Seq<Seq<char>>,
    extra: Seq<Seq<char>>,
    shown_head: Seq<char>,
    name: Seq<char>,
) -> (Seq<char>, Seq<Seq<char>>, Seq<char>, Seq<char>) {
    (program, base + extra, shown_head + extra_suffix(extra), name)
}

/// The project shape a recorded project type names; anything but `backend` and `fullstack`
/// is a frontend project.
pub open spec fn shape_of(project_type: Seq<char>) -> ProjectShape {
    if project_type == "backend"@ {
        ProjectShape::Backend
    } else if project_type == "fullstack"@ {
        ProjectShape::Fullstack
    } else {
        ProjectShape::Frontend
    }
}

pub fn project_shape(project_type: &str) -> (r: ProjectShape)
    ensures
        r == shape_of(project_type@),
{
    if str_equal(project_type, "backend") {
        ProjectShape::Backend
    } else if str_equal(project_type, "fullstack") {
        ProjectShape::Fullstack
    } else {
        ProjectShape::Frontend
    }
}

/// The backend runtime of the project: the recorded runtime, else the runtime of the recorded
/// API framework (matched ignoring ASCII case), else Go.
pub open spec fn current_runtime_spec(runtime: Option<Seq<char>>, api_framework: Option<Seq<char>>) -> Seq<char> {
    match runtime {
        Some(r) => r,
        None => match api_framework {
            Some(a) => match ApiFramework::parse_spec(a) {
                Some(f) => f.runtime_of().name_of(),
                None => "go"@,
            },
            None => "go"@,
        },
    }
}

pub fn current_runtime(runtime: Option<String>, api_framework: Option<String>) -> (r: String)
    ensures
        r@ == current_runtime_spec(
            match runtime {
                Some(x) => Some(x@),
                None => None,
            },
            match api_framework {
                Some(x) => Some(x@),
                None => None,
            },
        ),
{
    match runtime {
        Some(r) => r,
        None => match api_framework {
            Some(a) => match ApiFramework::parse(a.as_str()) {
                Some(f) => owned(f.runtime().name()),
                None => owned("go"),
            },
            None => owned("go"),
        },
    }
}

/// The `python3 -m` arguments of the dev server for the recorded API framework; `main` when
/// it is not one this tool knows.
pub fn python_dev_args(api_framework: &str) -> (r: Vec<&'static str>)
    ensures
        r@.map_values(|a: &'static str| a@) == (match ApiFramework::parse_spec(api_framework@) {
            Some(f) => f.python_dev_args_of(),
            None => seq!["main"@],
        }),
{
    match ApiFramework::parse(api_framework) {
        Some(f) => f.python_dev_args(),
        None => {
            let r = vec!["main"];
            assert(r@.map_values(|a: &'static str| a@) =~= seq!["main"@]);
            r
        },
    }
}

/// The npm script that starts the dev server of a frontend framework (matched ignoring ASCII
/// case); `dev` when the framework is not one this tool knows.
pub fn dev_script(framework: &str) -> (r: &'static str)
    ensures
        r@ == (match Frontend::parse_spec(framework@) {
            Some(f) => f.dev_script_of(),
            None => "dev"@,
        }),
{
    match Frontend::parse(framework) {
        Some(f) => f.dev_script(),
        None => "dev",
    }
}

/// The npm build script, whatever the framework.
pub fn build_script(framework: &str) -> (r: &'static str)
    ensures
        r@ == "build"@,
{
    "build"
}

/// The npm test script, whatever the framework.
pub fn test_script(framework: &str) -> (r: &'static str)
    ensures
        r@ == "test"@,
{
    "test"
}

/// The npm lint script, whatever the framework.
pub fn lint_script(framework: &str) -> (r: &'static str)
    ensures
        r@ == "lint"@,
{
    "lint"
}

/// `[first, second]` followed by `rest`.
pub fn prepend2(first: &str, second: &str, rest: &Vec<String>) -> (r: Vec<String>)
    ensures
        strings(r@) == seq![first@, second@] + strings(rest@),
{
    let mut v: Vec<String> = vec![owned(first), owned(second)];
    let mut i: usize = 0;
    while i < rest.len()
        invariant
            i <= rest.len(),
            strings(v@) == seq![first@, second@] + strings(rest@).take(i as int),
        decreases rest.len() - i,
    {
        let ghost before = v@;
        v.push(rest[i].clone());
        assert(strings(v@) =~= strings(before).push(rest@[i as int]@));
        assert(strings(rest@).take(i + 1) =~= strings(rest@).take(i as int).push(rest@[i as int]@));
        i = i + 1;
    }
    assert(strings(rest@).take(rest.len() as int) =~= strings(rest@));
    v
}

fn join_all(v: &Vec<String>) -> (r: String)
    ensures
        r@ == join_sep(strings(v@), " "@),
{
    let r = join_first(v, v.len(), " ");
    assert(v@.map_values(|s: String| s@).take(v.len() as int) =~= strings(v@));
    r
}

fn suffix_of(extra: &Vec<String>) -> (r: String)
    ensures
        r@ == extra_suffix(strings(extra@)),
{
    if extra.len() == 0 {
        String::new()
    } else {
        let j = join_all(extra);
        cat(" ", j.as_str())
    }
}

fn args_then(base: Vec<String>, extra: &Vec<String>) -> (r: Vec<String>)
    ensures
        strings(r@) == strings(base@) + strings(extra@),
{
    let mut v = base;
    let ghost b = strings(v@);
    let mut i: usize = 0;
    while i < extra.len()
        invariant
            i <= extra.len(),
            strings(v@) == b + strings(extra@).take(i as int),
        decreases extra.len() - i,
    {
        let ghost before = v@;
        v.push(extra[i].clone());
        assert(strings(v@) =~= strings(before).push(extra@[i as int]@));
        assert(strings(extra@).take(i + 1) =~= strings(extra@).take(i as int).push(extra@[i as int]@));
        i = i + 1;
    }
    assert(strings(extra@).take(extra.len() as int) =~= strings(extra@));
    v
}

/// `npm run <script>` with the extra arguments.
pub fn npm_script(npm: &str, script: &str, extra: &Vec<String>) -> (r: Invocation)
    ensures
        inv_view(r) == invocation_spec(
            npm@,
            seq!["run"@, script@],
            strings(extra@),
            npm@ + " run "@ + script@,
            npm@ + " run "@ + script@,
        ),
{
    let base = vec![owned("run"), owned(script)];
    assert(strings(base@) =~= seq!["run"@, script@]);
    let head = cat3(npm, " run ", script);
    let suffix = suffix_of(extra);
    Invocation {
        program: owned(npm),
        args: args_then(base, extra),
        shown: cat(head.as_str(), suffix.as_str()),
        name: head,
    }
}

/// `go <go_args>` with the extra arguments.
pub fn go_command(go_args: &Vec<String>, extra: &Vec<String>) -> (r: Invocation)
    ensures
        inv_view(r) == invocation_spec(
            "go"@,
            strings(go_args@),
            strings(extra@),
            "go "@ + join_sep(strings(go_args@), " "@),
            "go "@ + join_sep(strings(go_args@), " "@),
        ),
{
    let cmd = join_all(go_args);
    let head = cat("go ", cmd.as_str());
    let suffix = suffix_of(extra);
    let mut base: Vec<String> = Vec::new();
    let mut i: usize = 0;
    while i < go_args.len()
        invariant
            i <= go_args.len(),
            base@ == go_args@.take(i as int),
        decreases go_args.len() - i,
    {
        base.push(go_args[i].clone());
        assert(base@ =~= go_args@.take(i + 1));
        i = i + 1;
    }
    assert(base@ =~= go_args@);
    Invocation {
        program: owned("go"),
        args: args_then(base, extra),
        shown: cat(head.as_str(), suffix.as_str()),
        name: head,
    }
}

/// `.venv/bin/python3 -m <module>` with the extra arguments.
pub fn python_module(module: &str, extra: &Vec<String>) -> (r: Invocation)
    ensures
        inv_view(r) == invocation_spec(
            ".venv/bin/python3"@,
            seq!["-m"@, module@],
            strings(extra@),
            ".venv/bin/python3 -m "@ + module@,
            "python3 -m "@ + module@,
        ),
{
    let base = vec![owned("-m"), owned(module)];
    assert(strings(base@) =~= seq!["-m"@, module@]);
    let head = cat(".venv/bin/python3 -m ", module);
    let suffix = suffix_of(extra);
    Invocation {
        program: owned(".venv/bin/python3"),
        args: args_then(base, extra),
        shown: cat(head.as_str(), suffix.as_str()),
        name: cat("python3 -m ", module),
    }
}

fn words(a: &'static str, b: &'static str, c: &'static str, d: &'static str, n: usize) -> (r: Vec<String>)
    requires
        1 <= n <= 4,
    ensures
        strings(r@) == seq![a@, b@, c@, d@].take(n as int),
{
    let mut v: Vec<String> = Vec::new();
    v.push(owned(a));
    if n >= 2 {
        v.push(owned(b));
    }
    if n >= 3 {
        v.push(owned(c));
    }
    if n >= 4 {
        v.push(owned(d));
    }
    assert(strings(v@) =~= seq![a@, b@, c@, d@].take(n as int));
    v
}

/// The backend's build command for `runtime`: `npm run build` for Node, nothing for Python,
/// `go build -o bin/api .` otherwise.
pub open spec fn backend_build_spec(runtime: Seq<char>, npm: Seq<char>, extra: Seq<Seq<char>>) -> Option<
    (Seq<char>, Seq<Seq<char>>, Seq<char>, Seq<char>),
> {
    if runtime == "node"@ {
        Some(invocation_spec(npm, seq!["run"@, "build"@], extra, npm + " run build"@, npm + " run build"@))
    } else if runtime == "python"@ {
        None
    } else {
        let go = seq!["build"@, "-o"@, "bin/api"@, "."@];
        Some(invocation_spec("go"@, go, extra, "go "@ + join_sep(go, " "@), "go "@ + join_sep(go, " "@)))
    }
}

pub fn backend_build(runtime: &str, npm: &str, extra: &Vec<String>) -> (r: Option<Invocation>)
    ensures
        match r {
            Some(i) => backend_build_spec(runtime@, npm@, strings(extra@)) == Some(inv_view(i)),
            None => backend_build_spec(runtime@, npm@, strings(extra@)) is None,
        },
{
    proof {
        reveal_strlit(" run ");
        reveal_strlit("build");
        reveal_strlit(" run build");
    }
    if str_equal(runtime, "node") {
        let r = npm_script(npm, "build", extra);
        assert(npm@ + " run "@ + "build"@ =~= npm@ + " run build"@);
        Some(r)
    } else if str_equal(runtime, "python") {
        None
    } else {
        let go = words("build", "-o", "bin/api", ".", 4);
        assert(seq!["build"@, "-o"@, "bin/api"@, "."@].take(4) =~= seq!["build"@, "-o"@, "bin/api"@, "."@]);
        Some(go_command(&go, extra))
    }
}

/// The backend's test command for `runtime`: `npm run test` for Node, `pytest` for Python,
/// `go test ./...` otherwise.
pub open spec fn backend_test_spec(runtime: Seq<char>, npm: Seq<char>, extra: Seq<Seq<char>>) -> (
    Seq<char>,
    Seq<Seq<char>>,
    Seq<char>,
    Seq<char>,
) {
    if runtime == "node"@ {
        invocation_spec(npm, seq!["run"@, "test"@], extra, npm + " run test"@, npm + " run test"@)
    } else if runtime == "python"@ {
        invocation_spec(
            ".venv/bin/python3"@,
            seq!["-m"@, "pytest"@],
            extra,
            ".venv/bin/python3 -m pytest"@,
            "python3 -m pytest"@,
        )
    } else {
        let go = seq!["test"@, "./..."@];
        invocation_spec("go"@, go, extra, "go "@ + join_sep(go, " "@), "go "@ + join_sep(go, " "@))
    }
}

pub fn backend_test(runtime: &str, npm: &str, extra: &Vec<String>) -> (r: Invocation)
    ensures
        inv_view(r) == backend_test_spec(runtime@, npm@, strings(extra@)),
{
    proof {
        reveal_strlit(" run ");
        reveal_strlit("test");
        reveal_strlit(" run test");
        reveal_strlit("pytest");
        reveal_strlit(".venv/bin/python3 -m ");
        reveal_strlit(".venv/bin/python3 -m pytest");
        reveal_strlit("python3 -m ");
        reveal_strlit("python3 -m pytest");
    }
    if str_equal(runtime, "node") {
        let r = npm_script(npm, "test", extra);
        assert(npm@ + " run "@ + "test"@ =~= npm@ + " run test"@);
        r
    } else if str_equal(runtime, "python") {
        let r = python_module("pytest", extra);
        assert(".venv/bin/python3 -m "@ + "pytest"@ =~= ".venv/bin/python3 -m pytest"@);
        assert("python3 -m "@ + "pytest"@ =~= "python3 -m pytest"@);
        r
    } else {
        let go = words("test", "./...", "", "", 2);
        assert(seq!["test"@, "./..."@, ""@, ""@].take(2) =~= seq!["test"@, "./..."@]);
        go_command(&go, extra)
    }
}

/// The backend's lint command for `runtime`: `npm run lint` for Node, `ruff check .` for
/// Python, `go vet ./...` otherwise.
pub open spec fn backend_lint_spec(runtime: Seq<char>, npm: Seq<char>, extra: Seq<Seq<char>>) -> (
    Seq<char>,
    Seq<Seq<char>>,
    Seq<char>,
    Seq<char>,
) {
    if runtime == "node"@ {
        invocation_spec(npm, seq!["run"@, "lint"@], extra, npm + " run lint"@, npm + " run lint"@)
    } else if runtime == "python"@ {
        invocation_spec(
            ".venv/bin/python3"@,
            seq!["-m"@, "ruff"@],
            seq!["check"@, "."@] + extra,
            ".venv/bin/python3 -m ruff"@,
            "python3 -m ruff"@,
        )
    } else {
        let go = seq!["vet"@, "./..."@];
        invocation_spec("go"@, go, extra, "go "@ + join_sep(go, " "@), "go "@ + join_sep(go, " "@))
    }
}

pub fn backend_lint(runtime: &str, npm: &str, extra: &Vec<String>) -> (r: Invocation)
    ensures
        inv_view(r) == backend_lint_spec(runtime@, npm@, strings(extra@)),
{
    proof {
        reveal_strlit(" run ");
        reveal_strlit("lint");
        reveal_strlit(" run lint");
        reveal_strlit("ruff");
        reveal_strlit(".venv/bin/python3 -m ");
        reveal_strlit(".venv/bin/python3 -m ruff");
        reveal_strlit("python3 -m ");
        reveal_strlit("python3 -m ruff");
    }
    if str_equal(runtime, "node") {
        let r = npm_script(npm, "lint", extra);
        assert(npm@ + " run "@ + "lint"@ =~= npm@ + " run lint"@);
        r
    } else if str_equal(runtime, "python") {
        let args = prepend2("check", ".", extra);
        let r = python_module("ruff", &args);
        assert(".venv/bin/python3 -m "@ + "ruff"@ =~= ".venv/bin/python3 -m ruff"@);
        assert("python3 -m "@ + "ruff"@ =~= "python3 -m ruff"@);
        r
    } else {
        let go = words("vet", "./...", "", "", 2);
        assert(seq!["vet"@, "./..."@, ""@, ""@].take(2) =~= seq!["vet"@, "./..."@]);
        go_command(&go, extra)
    }
}

/// A long-running dev server to start: program, arguments, the line shown first, and the
/// error when it cannot be started.
pub struct Launch {
    pub program: String,
    pub args: Vec<String>,
    pub shown: String,
    pub spawn_error: String,
}

pub open spec fn launch_view(l: Launch) -> (Seq<char>, Seq<Seq<char>>, Seq<char>, Seq<char>) {
    (l.program@, strings(l.args@), l.shown@, l.spawn_error@)
}

/// The backend dev server for `runtime`: `npm run dev` for Node, the API framework's
/// `python3 -m` module for Python, `go run ./...` otherwise.
pub open spec fn backend_dev_spec(runtime: Seq<char>, api_framework: Seq<char>, npm: Seq<char>) -> (
    Seq<char>,
    Seq<Seq<char>>,
    Seq<char>,
    Seq<char>,
) {
    if runtime == "node"@ {
        (npm, seq!["run"@, "dev"@], "npm run dev"@, "failed to spawn Node dev server"@)
    } else if runtime == "python"@ {
        let py = match ApiFramework::parse_spec(api_framework) {
            Some(f) => f.python_dev_args_of(),
            None => seq!["main"@],
        };
        (
            ".venv/bin/python3"@,
            seq!["-m"@] + py,
            ".venv/bin/python3 -m "@ + join_sep(py, " "@),
            "failed to spawn Python dev server"@,
        )
    } else {
        ("go"@, seq!["run"@, "./..."@], "go run ./..."@, "failed to spawn Go server"@)
    }
}

pub fn backend_dev(runtime: &str, api_framework: &str, npm: &str) -> (r: Launch)
    ensures
        launch_view(r) == backend_dev_spec(runtime@, api_framework@, npm@),
{
    if str_equal(runtime, "node") {
        let args = vec![owned("run"), owned("dev")];
        assert(strings(args@) =~= seq!["run"@, "dev"@]);
        Launch {
            program: owned(npm),
            args,
            shown: owned("npm run dev"),
            spawn_error: owned("failed to spawn Node dev server"),
        }
    } else if str_equal(runtime, "python") {
        let py = python_dev_args(api_framework);
        let mut args: Vec<String> = vec![owned("-m")];
        let mut shown_args: Vec<String> = Vec::new();
        let ghost pv = py@.map_values(|a: &'static str| a@);
        let mut i: usize = 0;
        while i < py.len()
            invariant
                i <= py.len(),
                pv == py@.map_values(|a: &'static str| a@),
                strings(args@) == seq!["-m"@] + pv.take(i as int),
                strings(shown_args@) == pv.take(i as int),
            decreases py.len() - i,
        {
            let ghost b1 = args@;
            let ghost b2 = shown_args@;
            args.push(owned(py[i]));
            shown_args.push(owned(py[i]));
            assert(strings(args@) =~= strings(b1).push(pv[i as int]));
            assert(strings(shown_args@) =~= strings(b2).push(pv[i as int]));
            assert(pv.take(i + 1) =~= pv.take(i as int).push(pv[i as int]));
            i = i + 1;
        }
        assert(pv.take(py.len() as int) =~= pv);
        let joined = join_all(&shown_args);
        Launch {
            program: owned(".venv/bin/python3"),
            args,
            shown: cat(".venv/bin/python3 -m ", joined.as_str()),
            spawn_error: owned("failed to spawn Python dev server"),
        }
    } else {
        let args = vec![owned("run"), owned("./...")];
        assert(strings(args@) =~= seq!["run"@, "./..."@]);
        Launch {
            program: owned("go"),
            args,
            shown: owned("go run ./..."),
            spawn_error: owned("failed to spawn Go server"),
        }
    }
}

/// The error when a command cannot be started.
pub fn spawn_failure(name: &str) -> (r: String)
    ensures
        r@ == "failed to spawn `"@ + name@ + "`"@,
{
    cat3("failed to spawn `", name, "`")
}

pub open spec fn signed_decimal(n: int) -> Seq<char> {
    if n < 0 {
        "-"@ + decimal((-n) as nat)
    } else {
        decimal(n as nat)
    }
}

/// The error when a command exits unsuccessfully with `code`.
pub fn exit_failure(name: &str, code: i32) -> (r: String)
    ensures
        r@ == "`"@ + name@ + "` exited with code "@ + signed_decimal(code as int),
{
    let digits = if code < 0 {
        let m: u64 = (-(code as i64)) as u64;
        cat("-", decimal_string(m).as_str())
    } else {
        decimal_string(code as u64)
    };
    let head = cat3("`", name, "` exited with code ");
    cat(head.as_str(), digits.as_str())
}

/// Whether the frontend framework must be known for `action` on a project of this shape:
/// always for a frontend project, and for a fullstack one only to start its dev server.
pub open spec fn needs_framework_spec(action: Action, shape: ProjectShape) -> bool {
    shape == ProjectShape::Frontend || (shape == ProjectShape::Fullstack && action == Action::Dev)
}

pub fn needs_framework(action: Action, shape: ProjectShape) -> (r: bool)
    ensures
        r == needs_framework_spec(action, shape),
{
    match shape {
        ProjectShape::Frontend => true,
        ProjectShape::Fullstack => action == Action::Dev,
        ProjectShape::Backend => false,
    }
}

/// The commands `build`, `test` or `lint` runs, in order, each with the directory it runs in:
/// the backend's command in the project for a backend project; the frontend's npm script in
/// `apps/web` (without the extra arguments) then the backend's command in `apps/api` for a
/// fullstack project; the framework's npm script for a frontend project.
pub fn check_plan(
    action: Action,
    shape: ProjectShape,
    framework: &str,
    runtime: &str,
    npm: &str,
    extra: &Vec<String>,
) -> (r: Vec<(String, Invocation)>)
    requires
        action != Action::Dev,
    ensures
        r@.map_values(|s: (String, Invocation)| (s.0@, inv_view(s.1))) == check_plan_spec(
            action,
            shape,
            runtime@,
            npm@,
            strings(extra@),
        ),
{
    proof {
        reveal_strlit(".");
        reveal_strlit("apps/web");
        reveal_strlit("apps/api");
    }
    let script = match action {
        Action::Build => build_script(framework),
        Action::Test => test_script(framework),
        _ => lint_script(framework),
    };
    let none: Vec<String> = Vec::new();
    let mut out: Vec<(String, Invocation)> = Vec::new();
    let dir = match shape {
        ProjectShape::Backend => ".",
        ProjectShape::Fullstack => "apps/api",
        ProjectShape::Frontend => ".",
    };
    match shape {
        ProjectShape::Frontend => {
            out.push((owned("."), npm_script(npm, script, extra)));
        },
        _ => {
            if shape == ProjectShape::Fullstack {
                out.push((owned("apps/web"), npm_script(npm, script, &none)));
            }
            match action {
                Action::Build => match backend_build(runtime, npm, extra) {
                    Some(i) => out.push((owned(dir), i)),
                    None => {},
                },
                Action::Test => out.push((owned(dir), backend_test(runtime, npm, extra))),
                _ => out.push((owned(dir), backend_lint(runtime, npm, extra))),
            }
        },
    }
    assert(strings(none@) =~= Seq::<Seq<char>>::empty());
    assert(out@.map_values(|s: (String, Invocation)| (s.0@, inv_view(s.1))) =~= check_plan_spec(
        action,
        shape,
        runtime@,
        npm@,
        strings(extra@),
    ));
    out
}

pub open spec fn script_of(action: Action) -> Seq<char> {
    match action {
        Action::Build => "build"@,
        Action::Test => "test"@,
        _ => "lint"@,
    }
}

pub open spec fn backend_check(action: Action, runtime: Seq<char>, npm: Seq<char>, extra: Seq<Seq<char>>) -> Seq<
    (Seq<char>, Seq<Seq<char>>, Seq<char>, Seq<char>),
> {
    match action {
        Action::Build => match backend_build_spec(runtime, npm, extra) {
            Some(i) => seq![i],
            None => seq![],
        },
        Action::Test => seq![backend_test_spec(runtime, npm, extra)],
        _ => seq![backend_lint_spec(runtime, npm, extra)],
    }
}

pub open spec fn npm_spec(npm: Seq<char>, script: Seq<char>, extra: Seq<Seq<char>>) -> (
    Seq<char>,
    Seq<Seq<char>>,
    Seq<char>,
    Seq<char>,
) {
    invocation_spec(npm, seq!["run"@, script], extra, npm + " run "@ + script, npm + " run "@ + script)
}

pub open spec fn check_plan_spec(
    action: Action,
    shape: ProjectShape,
    runtime: Seq<char>,
    npm: Seq<char>,
    extra: Seq<Seq<char>>,
) -> Seq<(Seq<char>, (Seq<char>, Seq<Seq<char>>, Seq<char>, Seq<char>))> {
    match shape {
        ProjectShape::Frontend => seq![("."@, npm_spec(npm, script_of(action), extra))],
        ProjectShape::Backend => backend_check(action, runtime, npm, extra).map_values(
            |i: (Seq<char>, Seq<Seq<char>>, Seq<char>, Seq<char>)| ("."@, i),
        ),
        ProjectShape::Fullstack => seq![("apps/web"@, npm_spec(npm, script_of(action), seq![]))]
            + backend_check(action, runtime, npm, extra).map_values(
            |i: (Seq<char>, Seq<Seq<char>>, Seq<char>, Seq<char>)| ("apps/api"@, i),
        ),
    }
}


// ── Laws ─────────────────────────────────────────────────────────────────────

/// A Go backend works on the whole module: `go test ./...`, `go vet ./...` and
/// `go build -o bin/api .`, each followed by the extra arguments and shown as typed, and the dev
/// server is `go run ./...`.
pub proof fn law_go_backend_commands(npm: Seq<char>, api_framework: Seq<char>, extra: Seq<Seq<char>>)
    ensures
        backend_test_spec("go"@, npm, extra) == (
            "go"@,
            seq!["test"@, "./..."@] + extra,
            "go test ./..."@ + extra_suffix(extra),
            "go test ./..."@,
        ),
        backend_lint_spec("go"@, npm, extra) == (
            "go"@,
            seq!["vet"@, "./..."@] + extra,
            "go vet ./..."@ + extra_suffix(extra),
            "go vet ./..."@,
        ),
        backend_build_spec("go"@, npm, extra) == Some(
            (
                "go"@,
                seq!["build"@, "-o"@, "bin/api"@, "."@] + extra,
                "go build -o bin/api ."@ + extra_suffix(extra),
                "go build -o bin/api ."@,
            ),
        ),
        backend_dev_spec("go"@, api_framework, npm) == (
            "go"@,
            seq!["run"@, "./..."@],
            "go run ./..."@,
            "failed to spawn Go server"@,
        ),
{
    reveal_strlit("go");
    reveal_strlit("node");
    reveal_strlit("python");
    reveal_strlit("go ");
    reveal_strlit(" ");
    reveal_strlit("test");
    reveal_strlit("vet");
    reveal_strlit("./...");
    reveal_strlit("build");
    reveal_strlit("-o");
    reveal_strlit("bin/api");
    reveal_strlit(".");
    reveal_strlit("go test ./...");
    reveal_strlit("go vet ./...");
    reveal_strlit("go build -o bin/api .");
    assert("go"@.len() != "node"@.len());
    assert("go"@.len() != "python"@.len());
    let t = seq!["test"@, "./..."@];
    assert(t.drop_last() =~= seq!["test"@]);
    assert(join_sep(t.drop_last(), " "@) == "test"@);
    assert(join_sep(t, " "@) == "test"@ + " "@ + "./..."@);
    assert("go "@ + join_sep(t, " "@) =~= "go test ./..."@);
    let v = seq!["vet"@, "./..."@];
    assert(v.drop_last() =~= seq!["vet"@]);
    assert(join_sep(v.drop_last(), " "@) == "vet"@);
    assert(join_sep(v, " "@) == "vet"@ + " "@ + "./..."@);
    assert("go "@ + join_sep(v, " "@) =~= "go vet ./..."@);
    let b = seq!["build"@, "-o"@, "bin/api"@, "."@];
    assert(b.drop_last() =~= seq!["build"@, "-o"@, "bin/api"@]);
    assert(b.drop_last().drop_last() =~= seq!["build"@, "-o"@]);
    assert(b.drop_last().drop_last().drop_last() =~= seq!["build"@]);
    assert(join_sep(b.drop_last().drop_last().drop_last(), " "@) == "build"@);
    assert(join_sep(b.drop_last().drop_last(), " "@) == "build"@ + " "@ + "-o"@);
    assert(join_sep(b.drop_last(), " "@) == "build"@ + " "@ + "-o"@ + " "@ + "bin/api"@);
    assert(join_sep(b, " "@) == "build"@ + " "@ + "-o"@ + " "@ + "bin/api"@ + " "@ + "."@);
    assert("go "@ + join_sep(b, " "@) =~= "go build -o bin/api ."@);
}

/// A Node backend runs its npm scripts `test`, `lint` and `build` through the project's package
/// manager, the extra arguments following; a Python backend runs `pytest` and `ruff check .`
/// as modules of its virtual environment's interpreter, and has nothing to build.
pub proof fn law_node_and_python_backend_commands(npm: Seq<char>, extra: Seq<Seq<char>>)
    ensures
        backend_test_spec("node"@, npm, extra) == (
            npm,
            seq!["run"@, "test"@] + extra,
            npm + " run test"@ + extra_suffix(extra),
            npm + " run test"@,
        ),
        backend_lint_spec("node"@, npm, extra) == (
            npm,
            seq!["run"@, "lint"@] + extra,
            npm + " run lint"@ + extra_suffix(extra),
            npm + " run lint"@,
        ),
        backend_build_spec("node"@, npm, extra) == Some(
            (npm, seq!["run"@, "build"@] + extra, npm + " run build"@ + extra_suffix(extra), npm + " run build"@),
        ),
        backend_test_spec("python"@, npm, extra) == (
            ".venv/bin/python3"@,
            seq!["-m"@, "pytest"@] + extra,
            ".venv/bin/python3 -m pytest"@ + extra_suffix(extra),
            "python3 -m pytest"@,
        ),
        backend_lint_spec("python"@, npm, extra) == (
            ".venv/bin/python3"@,
            seq!["-m"@, "ruff"@, "check"@, "."@] + extra,
            ".venv/bin/python3 -m ruff"@ + extra_suffix(seq!["check"@, "."@] + extra),
            "python3 -m ruff"@,
        ),
        backend_build_spec("python"@, npm, extra) is None,
{
    reveal_strlit("node");
    reveal_strlit("python");
    assert("node"@.len() != "python"@.len());
    assert(seq!["-m"@, "ruff"@] + (seq!["check"@, "."@] + extra) =~= seq!["-m"@, "ruff"@, "check"@, "."@] + extra);
}

/// Dev servers: Angular's npm script is `start`, React's and Vue's `dev`; a Node backend runs
/// `npm run dev`; a Python backend runs `uvicorn main:app --reload` for FastAPI and
/// `flask run --debug` for Flask as modules of its virtual environment's interpreter.
pub proof fn law_dev_servers(npm: Seq<char>)
    ensures
        Frontend::Angular.dev_script_of() == "start"@,
        Frontend::React.dev_script_of() == "dev"@,
        Frontend::Vue.dev_script_of() == "dev"@,
        backend_dev_spec("node"@, ApiFramework::Express.name_of(), npm) == (
            npm,
            seq!["run"@, "dev"@],
            "npm run dev"@,
            "failed to spawn Node dev server"@,
        ),
        backend_dev_spec("python"@, ApiFramework::Fastapi.name_of(), npm) == (
            ".venv/bin/python3"@,
            seq!["-m"@, "uvicorn"@, "main:app"@, "--reload"@],
            ".venv/bin/python3 -m uvicorn main:app --reload"@,
            "failed to spawn Python dev server"@,
        ),
        backend_dev_spec("python"@, ApiFramework::Flask.name_of(), npm) == (
            ".venv/bin/python3"@,
            seq!["-m"@, "flask"@, "run"@, "--debug"@],
            ".venv/bin/python3 -m flask run --debug"@,
            "failed to spawn Python dev server"@,
        ),
{
    reveal_strlit("node");
    reveal_strlit("python");
    reveal_strlit(" ");
    reveal_strlit("uvicorn");
    reveal_strlit("main:app");
    reveal_strlit("--reload");
    reveal_strlit("flask");
    reveal_strlit("run");
    reveal_strlit("--debug");
    reveal_strlit(".venv/bin/python3 -m ");
    reveal_strlit(".venv/bin/python3 -m uvicorn main:app --reload");
    reveal_strlit(".venv/bin/python3 -m flask run --debug");
    assert("node"@.len() != "python"@.len());
    crate::types::law_names_parse_back(
        crate::types::ProjectType::Frontend,
        Frontend::React,
        crate::types::Runtime::Go,
        ApiFramework::Fastapi,
    );
    crate::types::law_names_parse_back(
        crate::types::ProjectType::Frontend,
        Frontend::React,
        crate::types::Runtime::Go,
        ApiFramework::Flask,
    );
    let u = seq!["uvicorn"@, "main:app"@, "--reload"@];
    assert(u.drop_last().drop_last() =~= seq!["uvicorn"@]);
    assert(u.drop_last() =~= seq!["uvicorn"@, "main:app"@]);
    assert(join_sep(u.drop_last().drop_last(), " "@) == "uvicorn"@);
    assert(join_sep(u.drop_last(), " "@) == "uvicorn"@ + " "@ + "main:app"@);
    assert(join_sep(u, " "@) == "uvicorn"@ + " "@ + "main:app"@ + " "@ + "--reload"@);
    assert(".venv/bin/python3 -m "@ + join_sep(u, " "@) =~= ".venv/bin/python3 -m uvicorn main:app --reload"@);
    assert(seq!["-m"@] + u =~= seq!["-m"@, "uvicorn"@, "main:app"@, "--reload"@]);
    let f = seq!["flask"@, "run"@, "--debug"@];
    assert(f.drop_last().drop_last() =~= seq!["flask"@]);
    assert(f.drop_last() =~= seq!["flask"@, "run"@]);
    assert(join_sep(f.drop_last().drop_last(), " "@) == "flask"@);
    assert(join_sep(f.drop_last(), " "@) == "flask"@ + " "@ + "run"@);
    assert(join_sep(f, " "@) == "flask"@ + " "@ + "run"@ + " "@ + "--debug"@);
    assert(".venv/bin/python3 -m "@ + join_sep(f, " "@) =~= ".venv/bin/python3 -m flask run --debug"@);
    assert(seq!["-m"@] + f =~= seq!["-m"@, "flask"@, "run"@, "--debug"@]);
}

/// The backend runtime: the recorded one wins; without it, the recorded API framework's
/// runtime (Gin, Echo and Fiber are Go, Express and Fastify Node, FastAPI and Flask Python);
/// with neither, or an unknown framework, Go.
pub proof fn law_current_runtime(recorded: Seq<char>, a: ApiFramework)
    ensures
        current_runtime_spec(Some(recorded), None) == recorded,
        current_runtime_spec(None, None) == "go"@,
        current_runtime_spec(None, Some(a.name_of())) == (match a {
            ApiFramework::Gin | ApiFramework::Echo | ApiFramework::Fiber => "go"@,
            ApiFramework::Express | ApiFramework::Fastify => "node"@,
            ApiFramework::Fastapi | ApiFramework::Flask => "python"@,
        }),
{
    crate::types::law_names_parse_back(crate::types::ProjectType::Frontend, Frontend::React, crate::types::Runtime::Go, a);
}

/// `build`, `test` and `lint` run the npm script of the same name: in the project for a
/// frontend project (with the extra arguments); for a fullstack project first in `apps/web`
/// (without them), then in `apps/api` exactly what a backend project runs in the project.
pub proof fn law_check_plan_by_shape(action: Action, runtime: Seq<char>, npm: Seq<char>, extra: Seq<Seq<char>>)
    requires
        action != Action::Dev,
    ensures
        ({
            let script = match action {
                Action::Build => "build"@,
                Action::Test => "test"@,
                _ => "lint"@,
            };
            let fe = check_plan_spec(action, ProjectShape::Frontend, runtime, npm, extra);
            let be = check_plan_spec(action, ProjectShape::Backend, runtime, npm, extra);
            let fs = check_plan_spec(action, ProjectShape::Fullstack, runtime, npm, extra);
            &&& fe == seq![("."@, (npm, seq!["run"@, script] + extra, npm + " run "@ + script + extra_suffix(extra), npm + " run "@ + script))]
            &&& forall|i: int| 0 <= i < be.len() ==> (#[trigger] be[i]).0 == "."@
            &&& fs.len() == be.len() + 1
            &&& fs[0] == ("apps/web"@, (npm, seq!["run"@, script], npm + " run "@ + script, npm + " run "@ + script))
            &&& forall|i: int| 0 <= i < be.len() ==> fs[i + 1] == ("apps/api"@, (#[trigger] be[i]).1)
        }),
{
    assert(extra_suffix(Seq::<Seq<char>>::empty()) =~= Seq::<char>::empty());
    let script = script_of(action);
    assert(seq!["run"@, script] + Seq::<Seq<char>>::empty() =~= seq!["run"@, script]);
    assert(npm + " run "@ + script + Seq::<char>::empty() =~= npm + " run "@ + script);
}

} // verus!
