//! Scaffolding a new project: which templates go into which directories, the data they are
//! rendered with, and how dependencies get installed.

pub mod scaffolder;

pub use scaffolder::Scaffolder;

use crate::paths::{dir_part, join, join_spec, dir_of};
use crate::scaffold::scaffolder::Runtimes;
use crate::text::{
    cat, cat3, chars_of, contains_seq, has_prefix, has_suffix, owned, prefix_upto, str_contains,
    str_ends_with, str_starts_with, suffix_from,
};
use crate::types::Runtime;
use crate::utils::{pascal_case, to_pascal_case};
use crate::version_map::VersionMap;
use vstd::prelude::*;

verus! {

pub enum ScaffoldPlan {
    Frontend(Scaffolder),
    Backend(Scaffolder),
    /// Fullstack composes two scaffolders: frontend into `apps/web`, backend into `apps/api`.
    Fullstack(Scaffolder, Scaffolder),
}

/// Which resolved versions a batch of templates is rendered with: those of the plan's first
/// scaffolder, of its second, or both together (the second's winning where they overlap).
#[derive(Clone, Copy, PartialEq, Eq, Structural, Debug)]
pub enum VersionSource {
    First,
    Second,
    Both,
}

/// One batch of templates: every template under `prefix/` is written into `dir`, rendered
/// with the versions `versions` names.
pub struct ScaffoldStep {
    pub dir: String,
    pub prefix: String,
    pub versions: VersionSource,
}

/// `sub` under the project directory `root` (the project directory itself when `sub` is empty).
pub open spec fn under(root: Seq<char>, sub: Seq<char>) -> Seq<char> {
    if sub.len() == 0 {
        root
    } else {
        join_spec(root, sub)
    }
}

/// An application's own templates in `dir`, then its auth and billing variants when enabled,
/// all rendered with the versions `src` names.
pub open spec fn app_steps(dir: Seq<char>, prefix: Seq<char>, auth: bool, billing: bool, src: VersionSource) -> Seq<
    (Seq<char>, Seq<char>, VersionSource),
> {
    seq![(dir, prefix, src)] + (if auth {
        seq![(dir, "auth/"@ + prefix, src)]
    } else {
        seq![]
    }) + (if billing {
        seq![(dir, "billing/"@ + prefix, src)]
    } else {
        seq![]
    })
}

/// The infrastructure every project gets: the CDK stack (with its auth and billing parts when
/// enabled), the GitHub Actions workflows, and the root files, rendered with the versions
/// `src` names.
pub open spec fn infra_steps(root: Seq<char>, auth: bool, billing: bool, src: VersionSource) -> Seq<
    (Seq<char>, Seq<char>, VersionSource),
> {
    let cdk = under(root, "cdk"@);
    seq![(cdk, "cdk"@, src)] + (if auth {
        seq![(cdk, "cdk-auth"@, src)]
    } else {
        seq![]
    }) + (if billing {
        seq![(cdk, "cdk-billing"@, src)]
    } else {
        seq![]
    }) + seq![(under(root, ".github/workflows"@), "github-actions"@, src), (root, "root"@, src)]
}

/// The versions `src` names, out of the first and second scaffolders' resolved versions.
pub open spec fn source_versions(
    src: VersionSource,
    first: Map<Seq<char>, Seq<char>>,
    second: Map<Seq<char>, Seq<char>>,
) -> Map<Seq<char>, Seq<char>> {
    match src {
        VersionSource::First => first,
        VersionSource::Second => second,
        VersionSource::Both => first.union_prefer_right(second),
    }
}

/// The versions a batch is rendered with: the first scaffolder's, the second's, or the first's
/// extended by the second's.
pub fn versions_for(src: VersionSource, first: &VersionMap, second: &VersionMap) -> (r: VersionMap)
    ensures
        r@ == source_versions(src, first@, second@),
{
    let mut r = VersionMap::new();
    match src {
        VersionSource::First => r.extend(first),
        VersionSource::Second => r.extend(second),
        VersionSource::Both => {
            r.extend(first);
            r.extend(second);
        },
    }
    assert(Map::<Seq<char>, Seq<char>>::empty().union_prefer_right(first@) =~= first@);
    assert(Map::<Seq<char>, Seq<char>>::empty().union_prefer_right(second@) =~= second@);
    r
}

impl ScaffoldPlan {
    /// The template batches written for project `root`, in order. A fullstack project renders
    /// each application with its own scaffolder's versions and the shared files with both.
    pub open spec fn plan_steps(self, root: Seq<char>) -> Seq<(Seq<char>, Seq<char>, VersionSource)> {
        match self {
            ScaffoldPlan::Frontend(s) | ScaffoldPlan::Backend(s) => app_steps(
                root,
                s.template_prefix@,
                s.auth,
                s.billing,
                VersionSource::First,
            ) + infra_steps(root, s.auth, s.billing, VersionSource::First),
            ScaffoldPlan::Fullstack(fe, be) => app_steps(
                under(root, "apps/web"@),
                fe.template_prefix@,
                fe.auth,
                fe.billing,
                VersionSource::First,
            ) + app_steps(
                under(root, "apps/api"@),
                be.template_prefix@,
                be.auth,
                be.billing,
                VersionSource::Second,
            ) + seq![(root, "fullstack"@, VersionSource::Both)] + infra_steps(
                root,
                fe.auth,
                fe.billing,
                VersionSource::Both,
            ),
        }
    }

    /// The scaffolders whose package versions are resolved, in order.
    pub open spec fn resolvers(self) -> Seq<Scaffolder> {
        match self {
            ScaffoldPlan::Frontend(s) | ScaffoldPlan::Backend(s) => seq![s],
            ScaffoldPlan::Fullstack(fe, be) => seq![fe, be],
        }
    }

    /// Where dependencies are installed for project `root`, and by which scaffolder (an index
    /// into `resolvers`).
    pub open spec fn install_plan(self, root: Seq<char>) -> Seq<(Seq<char>, nat)> {
        match self {
            ScaffoldPlan::Frontend(_) | ScaffoldPlan::Backend(_) => seq![(root, 0nat)],
            ScaffoldPlan::Fullstack(_, _) => seq![
                (under(root, "apps/web"@), 0nat),
                (under(root, "apps/api"@), 1nat),
            ],
        }
    }

    /// The template batches for the project named `name`, in the order they are written.
    pub fn steps(&self, name: &str) -> (r: Vec<ScaffoldStep>)
        ensures
            r@.map_values(|s: ScaffoldStep| (s.dir@, s.prefix@, s.versions)) == self.plan_steps(name@),
    {
        let mut out: Vec<ScaffoldStep> = Vec::new();
        match self {
            ScaffoldPlan::Frontend(s) | ScaffoldPlan::Backend(s) => {
                push_app_steps(&mut out, name, s, VersionSource::First);
                push_infra_steps(&mut out, name, s.auth, s.billing, VersionSource::First);
            },
            ScaffoldPlan::Fullstack(fe, be) => {
                let web = subdir(name, "apps/web");
                let api = subdir(name, "apps/api");
                push_app_steps(&mut out, web.as_str(), fe, VersionSource::First);
                push_app_steps(&mut out, api.as_str(), be, VersionSource::Second);
                push_step(&mut out, name, "fullstack", VersionSource::Both);
                push_infra_steps(&mut out, name, fe.auth, fe.billing, VersionSource::Both);
            },
        }
        assert(out@.map_values(|s: ScaffoldStep| (s.dir@, s.prefix@, s.versions)) =~= self.plan_steps(name@));
        out
    }

    /// The directories dependencies are installed in, each with the index of its scaffolder.
    pub fn install_targets(&self, name: &str) -> (r: Vec<(String, usize)>)
        ensures
            r@.map_values(|t: (String, usize)| (t.0@, t.1 as nat)) == self.install_plan(name@),
    {
        let r = match self {
            ScaffoldPlan::Frontend(_) | ScaffoldPlan::Backend(_) => vec![(owned(name), 0usize)],
            ScaffoldPlan::Fullstack(_, _) => vec![
                (subdir(name, "apps/web"), 0usize),
                (subdir(name, "apps/api"), 1usize),
            ],
        };
        assert(r@.map_values(|t: (String, usize)| (t.0@, t.1 as nat)) =~= self.install_plan(name@));
        r
    }
}

fn subdir(root: &str, sub: &str) -> (r: String)
    ensures
        r@ == under(root@, sub@),
{
    if chars_of(sub).len() == 0 {
        owned(root)
    } else {
        join(root, sub)
    }
}

fn push_step(out: &mut Vec<ScaffoldStep>, dir: &str, prefix: &str, src: VersionSource)
    ensures
        final(out)@.map_values(|s: ScaffoldStep| (s.dir@, s.prefix@, s.versions)) == old(out)@.map_values(
            |s: ScaffoldStep| (s.dir@, s.prefix@, s.versions),
        ).push((dir@, prefix@, src)),
{
    let ghost before = out@;
    out.push(ScaffoldStep { dir: owned(dir), prefix: owned(prefix), versions: src });
    assert(out@.map_values(|s: ScaffoldStep| (s.dir@, s.prefix@, s.versions)) =~= before.map_values(
        |s: ScaffoldStep| (s.dir@, s.prefix@, s.versions),
    ).push((dir@, prefix@, src)));
}

fn push_app_steps(out: &mut Vec<ScaffoldStep>, dir: &str, s: &Scaffolder, src: VersionSource)
    ensures
        final(out)@.map_values(|t: ScaffoldStep| (t.dir@, t.prefix@, t.versions)) == old(out)@.map_values(
            |t: ScaffoldStep| (t.dir@, t.prefix@, t.versions),
        ) + app_steps(dir@, s.template_prefix@, s.auth, s.billing, src),
{
    let ghost before = out@.map_values(|t: ScaffoldStep| (t.dir@, t.prefix@, t.versions));
    push_step(out, dir, s.template_prefix, src);
    if s.auth {
        let p = cat("auth/", s.template_prefix);
        push_step(out, dir, p.as_str(), src);
    }
    if s.billing {
        let p = cat("billing/", s.template_prefix);
        push_step(out, dir, p.as_str(), src);
    }
    assert(out@.map_values(|t: ScaffoldStep| (t.dir@, t.prefix@, t.versions)) =~= before + app_steps(
        dir@,
        s.template_prefix@,
        s.auth,
        s.billing,
        src,
    ));
}

fn push_infra_steps(out: &mut Vec<ScaffoldStep>, root: &str, auth: bool, billing: bool, src: VersionSource)
    ensures
        final(out)@.map_values(|t: ScaffoldStep| (t.dir@, t.prefix@, t.versions)) == old(out)@.map_values(
            |t: ScaffoldStep| (t.dir@, t.prefix@, t.versions),
        ) + infra_steps(root@, auth, billing, src),
{
    proof {
        reveal_strlit("cdk");
        reveal_strlit(".github/workflows");
    }
    let ghost before = out@.map_values(|t: ScaffoldStep| (t.dir@, t.prefix@, t.versions));
    let cdk = subdir(root, "cdk");
    push_step(out, cdk.as_str(), "cdk", src);
    if auth {
        push_step(out, cdk.as_str(), "cdk-auth", src);
    }
    if billing {
        push_step(out, cdk.as_str(), "cdk-billing", src);
    }
    let workflows = subdir(root, ".github/workflows");
    push_step(out, workflows.as_str(), "github-actions", src);
    push_step(out, root, "root", src);
    assert(out@.map_values(|t: ScaffoldStep| (t.dir@, t.prefix@, t.versions)) =~= before + infra_steps(
        root@,
        auth,
        billing,
        src,
    ));
}


// ── Template paths ───────────────────────────────────────────────────────────

/// Where the embedded template `path` lands under a batch's directory when the batch takes
/// the templates under `prefix/`, and whether it is rendered: `None` for a template outside
/// the batch or one of the `generate` command's templates. A `.hbs` template is rendered and
/// loses the extension; a name starting with `_` becomes a dotfile; anything else is copied.
pub open spec fn template_output_spec(path: Seq<char>, prefix: Seq<char>) -> Option<(Seq<char>, bool)> {
    let pre = prefix + "/"@;
    if !has_prefix(path, pre) || contains_seq(path, "/generate/"@) {
        None
    } else {
        let rel = path.skip(pre.len() as int);
        if has_suffix(rel, ".hbs"@) {
            Some((rel.take(rel.len() - 4), true))
        } else if rel.len() > 0 && rel[0] == '_' {
            let stem = rel.skip(1);
            let dir = dir_part(rel);
            if dir.len() == 0 {
                Some(("."@ + stem, false))
            } else {
                Some((dir + "/."@ + stem, false))
            }
        } else {
            Some((rel, false))
        }
    }
}

pub fn template_output(path: &str, prefix: &str) -> (r: Option<(String, bool)>)
    ensures
        match r {
            Some((out, render)) => template_output_spec(path@, prefix@) == Some((out@, render)),
            None => template_output_spec(path@, prefix@) is None,
        },
{
    proof {
        reveal_strlit("/");
        reveal_strlit(".hbs");
        reveal_strlit(".");
        reveal_strlit("/.");
    }
    let pre = cat(prefix, "/");
    if !str_starts_with(path, pre.as_str()) || str_contains(path, "/generate/") {
        return None;
    }
    let rel = suffix_from(path, chars_of(pre.as_str()).len());
    let rv = chars_of(rel.as_str());
    if str_ends_with(rel.as_str(), ".hbs") {
        return Some((prefix_upto(rel.as_str(), rv.len() - 4), true));
    }
    if rv.len() > 0 && rv[0] == '_' {
        let stem = suffix_from(rel.as_str(), 1);
        let dir = dir_of(rel.as_str());
        if chars_of(dir.as_str()).len() == 0 {
            return Some((cat(".", stem.as_str()), false));
        }
        return Some((cat3(dir.as_str(), "/.", stem.as_str()), false));
    }
    Some((rel, false))
}


// ── Template data ────────────────────────────────────────────────────────────

/// The values the templates are rendered with.
pub struct TemplateData {
    pub name: String,
    pub pascal_name: String,
    pub auth: bool,
    pub billing: bool,
    pub has_frontend: bool,
    pub has_backend: bool,
    pub is_fullstack: bool,
    pub lambda_runtime: String,
    pub lambda_handler: String,
    pub backend_runtime_go: bool,
    pub backend_runtime_node: bool,
    pub backend_runtime_python: bool,
    pub go_version: String,
    pub node_version: String,
    pub python_version: String,
    /// Package versions by template key; a key here overrides a field of the same name.
    pub versions: VersionMap,
    /// The frontend's dev script, for a project with a frontend.
    pub frontend_dev_script: Option<&'static str>,
}

/// A feature flag of the project: the frontend's setting if there is a frontend, else the
/// backend's, else off.
pub open spec fn flag_of(fe: Option<bool>, be: Option<bool>) -> bool {
    match fe {
        Some(f) => f,
        None => match be {
            Some(b) => b,
            None => false,
        },
    }
}

pub open spec fn runtime_of_backend(backend: Option<&Scaffolder>) -> Option<Runtime> {
    match backend {
        Some(b) => b.backend_runtime,
        None => None,
    }
}

/// The data for the project `name` with the given scaffolders and resolved versions.
pub fn build_data(
    name: &str,
    versions: VersionMap,
    frontend: Option<&Scaffolder>,
    backend: Option<&Scaffolder>,
    runtimes: &Runtimes,
) -> (r: TemplateData)
    ensures
        r.name@ == name@,
        r.pascal_name@ == pascal_case(name@),
        r.auth == flag_of(
            match frontend {
                Some(f) => Some(f.auth),
                None => None,
            },
            match backend {
                Some(b) => Some(b.auth),
                None => None,
            },
        ),
        r.billing == flag_of(
            match frontend {
                Some(f) => Some(f.billing),
                None => None,
            },
            match backend {
                Some(b) => Some(b.billing),
                None => None,
            },
        ),
        r.has_frontend == frontend is Some,
        r.has_backend == backend is Some,
        r.is_fullstack == (frontend is Some && backend is Some),
        r.lambda_runtime@ == (match backend {
            Some(b) => b.lambda_runtime@,
            None => Seq::<char>::empty(),
        }),
        r.lambda_handler@ == (match backend {
            Some(b) => b.lambda_handler@,
            None => Seq::<char>::empty(),
        }),
        r.backend_runtime_go == (runtime_of_backend(backend) == Some(Runtime::Go)),
        r.backend_runtime_node == (runtime_of_backend(backend) == Some(Runtime::Node)),
        r.backend_runtime_python == (runtime_of_backend(backend) == Some(
            Runtime::Python,
        )),
        r.go_version == runtimes.versions.go,
        r.node_version == runtimes.versions.node,
        r.python_version == runtimes.versions.python,
        r.versions@ == versions@,
        r.frontend_dev_script == (match frontend {
            Some(f) => f.dev_script,
            None => None,
        }),
{
    let auth = match frontend {
        Some(f) => f.auth,
        None => match backend {
            Some(b) => b.auth,
            None => false,
        },
    };
    let billing = match frontend {
        Some(f) => f.billing,
        None => match backend {
            Some(b) => b.billing,
            None => false,
        },
    };
    let backend_runtime = match backend {
        Some(b) => b.backend_runtime,
        None => None,
    };
    let (lambda_runtime, lambda_handler) = match backend {
        Some(b) => (b.lambda_runtime.clone(), b.lambda_handler.clone()),
        None => (String::new(), String::new()),
    };
    TemplateData {
        name: owned(name),
        pascal_name: to_pascal_case(name),
        auth,
        billing,
        has_frontend: frontend.is_some(),
        has_backend: backend.is_some(),
        is_fullstack: frontend.is_some() && backend.is_some(),
        lambda_runtime,
        lambda_handler,
        backend_runtime_go: match backend_runtime {
            Some(Runtime::Go) => true,
            _ => false,
        },
        backend_runtime_node: match backend_runtime {
            Some(Runtime::Node) => true,
            _ => false,
        },
        backend_runtime_python: match backend_runtime {
            Some(Runtime::Python) => true,
            _ => false,
        },
        go_version: runtimes.versions.go.clone(),
        node_version: runtimes.versions.node.clone(),
        python_version: runtimes.versions.python.clone(),
        versions,
        frontend_dev_script: match frontend {
            Some(f) => f.dev_script,
            None => None,
        },
    }
}


// ── Rendering ────────────────────────────────────────────────────────────────

/// The text fields a template sees, in the order they are set: the project's own fields, then
/// every package version (which wins over a field of the same name), then the frontend's dev
/// script.
pub open spec fn data_strings(d: TemplateData) -> Seq<(Seq<char>, Seq<char>)> {
    seq![
        ("name"@, d.name@),
        ("pascal_name"@, d.pascal_name@),
        ("lambda_runtime"@, d.lambda_runtime@),
        ("lambda_handler"@, d.lambda_handler@),
        ("go_version"@, d.go_version@),
        ("node_version"@, d.node_version@),
        ("python_version"@, d.python_version@),
    ] + d.versions.entries_view() + match d.frontend_dev_script {
        Some(script) => seq![("frontend_dev_script"@, script@)],
        None => Seq::empty(),
    }
}

/// The flag `key` with `value`, unless a package version of that name overrides it.
pub open spec fn flag_unless_version(versions: Map<Seq<char>, Seq<char>>, key: Seq<char>, value: bool) -> Seq<
    (Seq<char>, bool),
> {
    if versions.contains_key(key) {
        Seq::empty()
    } else {
        seq![(key, value)]
    }
}

/// The true-or-false fields a template sees: each flag of the data that no package version
/// overrides.
pub open spec fn data_flags(d: TemplateData) -> Seq<(Seq<char>, bool)> {
    let v = d.versions@;
    flag_unless_version(v, "auth"@, d.auth)
        + flag_unless_version(v, "billing"@, d.billing)
        + flag_unless_version(v, "has_frontend"@, d.has_frontend)
        + flag_unless_version(v, "has_backend"@, d.has_backend)
        + flag_unless_version(v, "is_fullstack"@, d.is_fullstack)
        + flag_unless_version(v, "backend_runtime_go"@, d.backend_runtime_go)
        + flag_unless_version(v, "backend_runtime_node"@, d.backend_runtime_node)
        + flag_unless_version(v, "backend_runtime_python"@, d.backend_runtime_python)
}

pub open spec fn texts_view(v: Seq<(String, String)>) -> Seq<(Seq<char>, Seq<char>)> {
    v.map_values(|p: (String, String)| (p.0@, p.1@))
}

pub open spec fn flags_view(v: Seq<(String, bool)>) -> Seq<(Seq<char>, bool)> {
    v.map_values(|p: (String, bool)| (p.0@, p.1))
}

/// The characters Handlebars lets stand between the `{{` and the `>` of a partial call or
/// partial block: whitespace, and the `~` and `#` markers.
pub open spec fn partial_gap_char(c: char) -> bool {
    c == ' ' || c == '\t' || c == '\n' || c == '\r' || c == '~' || c == '#'
}

/// Whether the `{{` at `i` in `t` is followed, past gap characters only, by `>`.
pub open spec fn opens_partial_at(t: Seq<char>, i: int) -> bool {
    &&& 0 <= i
    &&& i + 1 < t.len()
    &&& t[i] == '{'
    &&& t[i + 1] == '{'
    &&& exists|j: int|
        i + 2 <= j < t.len() && t[j] == '>' && forall|k: int|
            i + 2 <= k < j ==> partial_gap_char(#[trigger] t[k])
}

/// Whether the template text `t` may call a partial: some `{{` is followed, past whitespace,
/// `~` and `#`, by `>`. (This also counts such text where Handlebars would not read a call.)
pub open spec fn has_partial_call(t: Seq<char>) -> bool {
    exists|i: int| opens_partial_at(t, i)
}

fn is_partial_gap(c: char) -> (r: bool)
    ensures
        r == partial_gap_char(c),
{
    c == ' ' || c == '\t' || c == '\n' || c == '\r' || c == '~' || c == '#'
}

/// Whether the template text `raw` may call a partial (see `has_partial_call`): such a template
/// is not rendered, since partials defined inline may call each other without end.
pub fn contains_partial_call(raw: &str) -> (r: bool)
    ensures
        r == has_partial_call(raw@),
{
    let v = chars_of(raw);
    let n = v.len();
    let mut i: usize = 0;
    while i < n
        invariant
            v@ == raw@,
            n == v.len(),
            forall|i2: int| 0 <= i2 < i ==> !opens_partial_at(v@, i2),
        decreases n - i,
    {
        if i + 1 < n && v[i] == '{' && v[i + 1] == '{' {
            let mut j: usize = i + 2;
            while j < n && is_partial_gap(v[j])
                invariant
                    v@ == raw@,
                    n == v.len(),
                    i + 2 <= j <= n,
                    forall|k: int| i + 2 <= k < j ==> partial_gap_char(#[trigger] v@[k]),
                decreases n - j,
            {
                j = j + 1;
            }
            if j < n && v[j] == '>' {
                assert(opens_partial_at(v@, i as int));
                return true;
            }
            proof {
                assert(!opens_partial_at(v@, i as int)) by {
                    if opens_partial_at(v@, i as int) {
                        let j2 = choose|j2: int|
                            i + 2 <= j2 < v@.len() && v@[j2] == '>' && forall|k: int|
                                i + 2 <= k < j2 ==> partial_gap_char(#[trigger] v@[k]);
                        if j2 < j {
                            assert(partial_gap_char(v@[j2]));
                        } else if j2 > j {
                            assert(partial_gap_char(v@[j as int]));
                        }
                    }
                }
            }
        }
        i = i + 1;
    }
    proof {
        assert forall|i2: int| !opens_partial_at(v@, i2) by {
            if 0 <= i2 < i {
            }
        }
    }
    false
}

/// What Handlebars renders `template` to in strict mode, with the data a JSON object whose
/// members are set from `strings` (as JSON strings) and then from `flags` (as JSON booleans),
/// in order, a later member replacing an earlier one of the same name; `None` where rendering
/// fails, such as on a syntax error or a variable the data lacks.
pub uninterp spec fn handlebars_strict_render(
    template: Seq<char>,
    strings: Seq<(Seq<char>, Seq<char>)>,
    flags: Seq<(Seq<char>, bool)>,
) -> Option<Seq<char>>;

/// Renders the template text `raw` with Handlebars in strict mode: builds a
/// `serde_json::Map` by inserting `strings` as `Value::String` and then `flags` as
/// `Value::Bool` (`Map::insert` replaces an earlier value of the same key), and calls
/// `Handlebars::render_template` on it as a `Value::Object`. The contract names the result
/// (`handlebars_strict_render`); Handlebars' error, on failure, is dropped. A template that may
/// call a partial is left out: Handlebars guards a partial only against including the template
/// it is named after, and partials defined inline have no name, so two of them can include each
/// other until the stack is exhausted. Parsing and rendering also recurse once per level of
/// nesting (blocks, subexpressions, literals); how deep a template may nest before that
/// outgrows the thread's stack depends on the machine and is not stated here.
#[verifier::external_body]
pub fn render(raw: &str, strings: &Vec<(String, String)>, flags: &Vec<(String, bool)>) -> (r: Option<String>)
    requires
        !has_partial_call(raw@),
    ensures
        match r {
            Some(text) => handlebars_strict_render(raw@, texts_view(strings@), flags_view(flags@)) == Some(text@),
            None => handlebars_strict_render(raw@, texts_view(strings@), flags_view(flags@)) is None,
        },
{
    let mut data = serde_json::Map::new();
    for (k, v) in strings.iter() {
        data.insert(k.clone(), serde_json::Value::String(v.clone()));
    }
    for (k, b) in flags.iter() {
        data.insert(k.clone(), serde_json::Value::Bool(*b));
    }
    let mut hbs = handlebars::Handlebars::new();
    hbs.set_strict_mode(true);
    hbs.render_template(raw, &serde_json::Value::Object(data)).ok()
}

fn push_text(out: &mut Vec<(String, String)>, key: &str, value: &str)
    ensures
        texts_view(final(out)@) == texts_view(old(out)@).push((key@, value@)),
{
    let ghost before = out@;
    out.push((owned(key), owned(value)));
    assert(texts_view(out@) =~= texts_view(before).push((key@, value@)));
}

fn push_flag(out: &mut Vec<(String, bool)>, versions: &VersionMap, key: &str, value: bool)
    ensures
        flags_view(final(out)@) == flags_view(old(out)@) + flag_unless_version(versions@, key@, value),
{
    let ghost before = out@;
    if !versions.contains_key(key) {
        out.push((owned(key), value));
    }
    assert(flags_view(out@) =~= flags_view(before) + flag_unless_version(versions@, key@, value));
}

/// The fields the templates are rendered with, as text fields and flags.
pub fn template_fields(d: &TemplateData) -> (r: (Vec<(String, String)>, Vec<(String, bool)>))
    ensures
        texts_view(r.0@) == data_strings(*d),
        flags_view(r.1@) == data_flags(*d),
{
    let mut strings: Vec<(String, String)> = Vec::new();
    push_text(&mut strings, "name", d.name.as_str());
    push_text(&mut strings, "pascal_name", d.pascal_name.as_str());
    push_text(&mut strings, "lambda_runtime", d.lambda_runtime.as_str());
    push_text(&mut strings, "lambda_handler", d.lambda_handler.as_str());
    push_text(&mut strings, "go_version", d.go_version.as_str());
    push_text(&mut strings, "node_version", d.node_version.as_str());
    push_text(&mut strings, "python_version", d.python_version.as_str());
    let ghost base = texts_view(strings@);
    let pairs = d.versions.pairs();
    let mut i: usize = 0;
    while i < pairs.len()
        invariant
            i <= pairs.len(),
            pairs@.map_values(|e: (String, String)| (e.0@, e.1@)) == d.versions.entries_view(),
            texts_view(strings@) == base + d.versions.entries_view().take(i as int),
        decreases pairs.len() - i,
    {
        let ghost before = texts_view(strings@);
        push_text(&mut strings, pairs[i].0.as_str(), pairs[i].1.as_str());
        assert(d.versions.entries_view().take(i + 1) =~= d.versions.entries_view().take(i as int).push(
            (pairs@[i as int].0@, pairs@[i as int].1@),
        ));
        i = i + 1;
    }
    assert(d.versions.entries_view().take(pairs.len() as int) =~= d.versions.entries_view());
    match d.frontend_dev_script {
        Some(script) => push_text(&mut strings, "frontend_dev_script", script),
        None => {},
    }
    let mut flags: Vec<(String, bool)> = Vec::new();
    push_flag(&mut flags, &d.versions, "auth", d.auth);
    push_flag(&mut flags, &d.versions, "billing", d.billing);
    push_flag(&mut flags, &d.versions, "has_frontend", d.has_frontend);
    push_flag(&mut flags, &d.versions, "has_backend", d.has_backend);
    push_flag(&mut flags, &d.versions, "is_fullstack", d.is_fullstack);
    push_flag(&mut flags, &d.versions, "backend_runtime_go", d.backend_runtime_go);
    push_flag(&mut flags, &d.versions, "backend_runtime_node", d.backend_runtime_node);
    push_flag(&mut flags, &d.versions, "backend_runtime_python", d.backend_runtime_python);
    assert(texts_view(strings@) =~= data_strings(*d));
    assert(flags_view(flags@) =~= data_flags(*d));
    (strings, flags)
}

/// What the embedded template `path`, with text `raw`, becomes in a batch that takes the
/// templates under `prefix/`: `None` for a template outside the batch; else the file it is
/// written to and its content (the text itself where it is copied, the rendering with `d`'s
/// fields where it is rendered), or `Some(None)` where a template to render may call a partial
/// (see `contains_partial_call`) or rendering fails.
pub fn scaffold_file(path: &str, raw: &str, prefix: &str, d: &TemplateData) -> (r: Option<Option<(String, String)>>)
    ensures
        match template_output_spec(path@, prefix@) {
            None => r is None,
            Some((out, rendered)) => if !rendered {
                r matches Some(Some((o, c))) && o@ == out && c@ == raw@
            } else if has_partial_call(raw@) {
                r matches Some(None)
            } else {
                match handlebars_strict_render(raw@, data_strings(*d), data_flags(*d)) {
                    Some(text) => r matches Some(Some((o, c))) && o@ == out && c@ == text,
                    None => r matches Some(None),
                }
            },
        },
{
    match template_output(path, prefix) {
        None => None,
        Some((out, rendered)) => {
            if !rendered {
                Some(Some((out, owned(raw))))
            } else if contains_partial_call(raw) {
                Some(None)
            } else {
                let (strings, flags) = template_fields(d);
                match render(raw, &strings, &flags) {
                    Some(text) => Some(Some((out, text))),
                    None => Some(None),
                }
            }
        },
    }
}


// ── Offline versions ─────────────────────────────────────────────────────────

/// The template key of every package any template refers to.
pub open spec fn offline_keys() -> Seq<Seq<char>> {
    seq![
        "_angular_animations"@,
        "_angular_build"@,
        "_angular_cdk"@,
        "_angular_cli"@,
        "_angular_common"@,
        "_angular_compiler"@,
        "_angular_compiler_cli"@,
        "_angular_core"@,
        "_angular_forms"@,
        "_angular_material"@,
        "_angular_platform_browser"@,
        "_angular_platform_browser_dynamic"@,
        "_angular_router"@,
        "_eslint_js"@,
        "_testing_library_jest_dom"@,
        "_testing_library_react"@,
        "_testing_library_vue"@,
        "_types_express"@,
        "_types_jest"@,
        "_types_node"@,
        "_types_react"@,
        "_types_react_dom"@,
        "_vitejs_plugin_react"@,
        "_vitejs_plugin_vue"@,
        "angular_eslint"@,
        "eslint"@,
        "eslint_plugin_react_hooks"@,
        "eslint_plugin_react_refresh"@,
        "eslint_plugin_vue"@,
        "express"@,
        "fastify"@,
        "jest"@,
        "jest_environment_jsdom"@,
        "jest_preset_angular"@,
        "jsdom"@,
        "react"@,
        "react_dom"@,
        "react_router"@,
        "rxjs"@,
        "sass_embedded"@,
        "tslib"@,
        "tsx"@,
        "typescript"@,
        "typescript_eslint"@,
        "vite"@,
        "vitest"@,
        "vue"@,
        "vue_tsc"@,
        "zone_js"@,
        "aws_amplify"@,
        "_aws_amplify_ui_react"@,
        "_aws_amplify_ui_angular"@,
        "_aws_amplify_ui_vue"@,
        "jsonwebtoken"@,
        "_types_jsonwebtoken"@,
        "jwks_rsa"@,
        "_fastify_jwt"@,
        "_stripe_stripe_js"@,
        "_stripe_react_stripe_js"@,
        "stripe"@,
    ]
}

pub open spec fn placeholder_version() -> Seq<char> {
    "0.0.0"@
}

fn offline_key_list() -> (r: Vec<&'static str>)
    ensures
        r@.map_values(|k: &'static str| k@) == offline_keys(),
{
    let r = vec![
        "_angular_animations",
        "_angular_build",
        "_angular_cdk",
        "_angular_cli",
        "_angular_common",
        "_angular_compiler",
        "_angular_compiler_cli",
        "_angular_core",
        "_angular_forms",
        "_angular_material",
        "_angular_platform_browser",
        "_angular_platform_browser_dynamic",
        "_angular_router",
        "_eslint_js",
        "_testing_library_jest_dom",
        "_testing_library_react",
        "_testing_library_vue",
        "_types_express",
        "_types_jest",
        "_types_node",
        "_types_react",
        "_types_react_dom",
        "_vitejs_plugin_react",
        "_vitejs_plugin_vue",
        "angular_eslint",
        "eslint",
        "eslint_plugin_react_hooks",
        "eslint_plugin_react_refresh",
        "eslint_plugin_vue",
        "express",
        "fastify",
        "jest",
        "jest_environment_jsdom",
        "jest_preset_angular",
        "jsdom",
        "react",
        "react_dom",
        "react_router",
        "rxjs",
        "sass_embedded",
        "tslib",
        "tsx",
        "typescript",
        "typescript_eslint",
        "vite",
        "vitest",
        "vue",
        "vue_tsc",
        "zone_js",
        "aws_amplify",
        "_aws_amplify_ui_react",
        "_aws_amplify_ui_angular",
        "_aws_amplify_ui_vue",
        "jsonwebtoken",
        "_types_jsonwebtoken",
        "jwks_rsa",
        "_fastify_jwt",
        "_stripe_stripe_js",
        "_stripe_react_stripe_js",
        "stripe",
    ];
    assert(r@.map_values(|k: &'static str| k@) =~= offline_keys());
    r
}

/// Versions for an offline scaffold: the placeholder `0.0.0` for every package key.
pub fn offline_versions() -> (r: VersionMap)
    ensures
        r@ == Map::new(|k: Seq<char>| offline_keys().contains(k), |k: Seq<char>| placeholder_version()),
{
    proof {
        reveal_strlit("0.0.0");
    }
    let keys = offline_key_list();
    let ghost ks = keys@.map_values(|k: &'static str| k@);
    let mut m = VersionMap::new();
    let mut i: usize = 0;
    while i < keys.len()
        invariant
            i <= keys.len(),
            ks == keys@.map_values(|k: &'static str| k@),
            m@ == Map::new(|k: Seq<char>| ks.take(i as int).contains(k), |k: Seq<char>| placeholder_version()),
        decreases keys.len() - i,
    {
        let ghost before = m@;
        m.insert(owned(keys[i]), owned("0.0.0"));
        proof {
            let t1 = ks.take(i + 1);
            let t0 = ks.take(i as int);
            assert forall|k: Seq<char>| t1.contains(k) <==> (t0.contains(k) || k == ks[i as int]) by {
                if t1.contains(k) {
                    let j = choose|j: int| 0 <= j < t1.len() && #[trigger] t1[j] == k;
                    if j < i {
                        assert(t0[j] == k);
                    }
                }
                if t0.contains(k) {
                    let j = choose|j: int| 0 <= j < t0.len() && #[trigger] t0[j] == k;
                    assert(t1[j] == k);
                }
                if k == ks[i as int] {
                    assert(t1[i as int] == k);
                }
            }
            assert(m@ =~= Map::new(|k: Seq<char>| ks.take(i + 1).contains(k), |k: Seq<char>| placeholder_version()));
        }
        i = i + 1;
    }
    assert(ks.take(keys.len() as int) =~= ks);
    m
}


// ── Laws ─────────────────────────────────────────────────────────────────────

impl ScaffoldPlan {
    /// The scaffolder whose options decide the shared infrastructure: the plan's only one, or
    /// the frontend of a fullstack plan.
    pub open spec fn infra_scaffolder(self) -> Scaffolder {
        match self {
            ScaffoldPlan::Frontend(s) | ScaffoldPlan::Backend(s) => s,
            ScaffoldPlan::Fullstack(fe, _) => fe,
        }
    }
}

proof fn lemma_cdk_billing_after(
    pre: Seq<(Seq<char>, Seq<char>, VersionSource)>,
    root: Seq<char>,
    auth: bool,
    src: VersionSource,
)
    ensures
        ({
            let s = pre + infra_steps(root, auth, true, src);
            let i = pre.len() + 1 + (if auth { 1int } else { 0int });
            &&& i < s.len()
            &&& s[i] == (join_spec(root, "cdk"@), "cdk-billing"@, src)
            &&& s[i - 1] == (join_spec(root, "cdk"@), if auth { "cdk-auth"@ } else { "cdk"@ }, src)
        }),
{
    reveal_strlit("cdk");
    let cdk = under(root, "cdk"@);
    assert(cdk == join_spec(root, "cdk"@));
    let inf = infra_steps(root, auth, true, src);
    if auth {
        assert(inf[1] == (cdk, "cdk-auth"@, src));
        assert(inf[2] == (cdk, "cdk-billing"@, src));
    } else {
        assert(inf[0] == (cdk, "cdk"@, src));
        assert(inf[1] == (cdk, "cdk-billing"@, src));
    }
}

/// A project whose infrastructure scaffolder has billing enabled gets the CDK billing stack:
/// a `cdk-billing` batch written into `<root>/cdk`, right after the CDK stack's own batch (or
/// after its auth batch, when auth is enabled too).
pub proof fn law_billing_scaffolds_cdk_billing(plan: ScaffoldPlan, root: Seq<char>)
    requires
        plan.infra_scaffolder().billing,
    ensures
        exists|i: int|
            0 < i < plan.plan_steps(root).len() && #[trigger] plan.plan_steps(root)[i] == (
                join_spec(root, "cdk"@),
                "cdk-billing"@,
                plan.plan_steps(root)[i].2,
            ) && plan.plan_steps(root)[i - 1].0 == join_spec(root, "cdk"@) && plan.plan_steps(
                root,
            )[i - 1].1 == (if plan.infra_scaffolder().auth {
                "cdk-auth"@
            } else {
                "cdk"@
            }),
{
    let steps = plan.plan_steps(root);
    match plan {
        ScaffoldPlan::Frontend(s) | ScaffoldPlan::Backend(s) => {
            let pre = app_steps(root, s.template_prefix@, s.auth, s.billing, VersionSource::First);
            lemma_cdk_billing_after(pre, root, s.auth, VersionSource::First);
            let i = pre.len() + 1 + (if s.auth { 1int } else { 0int });
            assert(steps[i] == (join_spec(root, "cdk"@), "cdk-billing"@, steps[i].2));
        },
        ScaffoldPlan::Fullstack(fe, be) => {
            let pre = app_steps(under(root, "apps/web"@), fe.template_prefix@, fe.auth, fe.billing, VersionSource::First)
                + app_steps(under(root, "apps/api"@), be.template_prefix@, be.auth, be.billing, VersionSource::Second)
                + seq![(root, "fullstack"@, VersionSource::Both)];
            lemma_cdk_billing_after(pre, root, fe.auth, VersionSource::Both);
            let i = pre.len() + 1 + (if fe.auth { 1int } else { 0int });
            assert(steps =~= pre + infra_steps(root, fe.auth, fe.billing, VersionSource::Both));
            assert(steps[i] == (join_spec(root, "cdk"@), "cdk-billing"@, steps[i].2));
        },
    }
}

proof fn lemma_infra_layout(
    pre: Seq<(Seq<char>, Seq<char>, VersionSource)>,
    root: Seq<char>,
    auth: bool,
    billing: bool,
    src: VersionSource,
)
    ensures
        ({
            let s = pre + infra_steps(root, auth, billing, src);
            let a = if auth { 1int } else { 0int };
            let b = if billing { 1int } else { 0int };
            &&& s.len() == pre.len() + 3 + a + b
            &&& s[pre.len() as int] == (join_spec(root, "cdk"@), "cdk"@, src)
            &&& auth ==> s[pre.len() + 1int] == (join_spec(root, "cdk"@), "cdk-auth"@, src)
            &&& s[s.len() - 2] == (join_spec(root, ".github/workflows"@), "github-actions"@, src)
            &&& s[s.len() - 1] == (root, "root"@, src)
        }),
{
    reveal_strlit("cdk");
    reveal_strlit(".github/workflows");
    let cdk = under(root, "cdk"@);
    assert(cdk == join_spec(root, "cdk"@));
    assert(under(root, ".github/workflows"@) == join_spec(root, ".github/workflows"@));
}

/// Every project gets the CDK stack in `<root>/cdk` (followed there by its auth part when auth is
/// enabled), and ends with the GitHub Actions workflows in `<root>/.github/workflows` and then
/// the root files in `<root>`.
pub proof fn law_every_plan_gets_the_infrastructure(plan: ScaffoldPlan, root: Seq<char>)
    ensures
        ({
            let steps = plan.plan_steps(root);
            &&& steps.len() >= 4
            &&& steps[steps.len() - 1].0 == root
            &&& steps[steps.len() - 1].1 == "root"@
            &&& steps[steps.len() - 2].0 == join_spec(root, ".github/workflows"@)
            &&& steps[steps.len() - 2].1 == "github-actions"@
            &&& exists|i: int|
                0 <= i < steps.len() && #[trigger] steps[i].0 == join_spec(root, "cdk"@) && steps[i].1 == "cdk"@
                    && (plan.infra_scaffolder().auth ==> i + 1 < steps.len() && steps[i + 1].0
                    == join_spec(root, "cdk"@) && steps[i + 1].1 == "cdk-auth"@)
        }),
{
    let steps = plan.plan_steps(root);
    match plan {
        ScaffoldPlan::Frontend(s) | ScaffoldPlan::Backend(s) => {
            let pre = app_steps(root, s.template_prefix@, s.auth, s.billing, VersionSource::First);
            lemma_infra_layout(pre, root, s.auth, s.billing, VersionSource::First);
            let i = pre.len() as int;
            assert(steps[i].0 == join_spec(root, "cdk"@));
        },
        ScaffoldPlan::Fullstack(fe, be) => {
            let pre = app_steps(under(root, "apps/web"@), fe.template_prefix@, fe.auth, fe.billing, VersionSource::First)
                + app_steps(under(root, "apps/api"@), be.template_prefix@, be.auth, be.billing, VersionSource::Second)
                + seq![(root, "fullstack"@, VersionSource::Both)];
            lemma_infra_layout(pre, root, fe.auth, fe.billing, VersionSource::Both);
            assert(steps =~= pre + infra_steps(root, fe.auth, fe.billing, VersionSource::Both));
            let i = pre.len() as int;
            assert(steps[i].0 == join_spec(root, "cdk"@));
        },
    }
}

/// An application's templates come first in its directory, then, when enabled, its auth
/// variant (`auth/<prefix>`) and its billing variant (`billing/<prefix>`) in the same
/// directory: for a single-app project that directory is the project root, for a fullstack
/// one `apps/web` for the frontend and `apps/api` for the backend, each with its own versions.
pub proof fn law_app_batches(plan: ScaffoldPlan, root: Seq<char>)
    ensures
        ({
            let steps = plan.plan_steps(root);
            match plan {
                ScaffoldPlan::Frontend(s) | ScaffoldPlan::Backend(s) => steps.take(
                    1 + (if s.auth { 1int } else { 0 }) + (if s.billing { 1int } else { 0 }),
                ) == seq![(root, s.template_prefix@, VersionSource::First)] + (if s.auth {
                    seq![(root, "auth/"@ + s.template_prefix@, VersionSource::First)]
                } else {
                    seq![]
                }) + (if s.billing {
                    seq![(root, "billing/"@ + s.template_prefix@, VersionSource::First)]
                } else {
                    seq![]
                }),
                ScaffoldPlan::Fullstack(fe, be) => {
                    let web = join_spec(root, "apps/web"@);
                    let api = join_spec(root, "apps/api"@);
                    let nf = 1 + (if fe.auth { 1int } else { 0 }) + (if fe.billing { 1int } else { 0 });
                    let nb = 1 + (if be.auth { 1int } else { 0 }) + (if be.billing { 1int } else { 0 });
                    &&& steps.take(nf) == seq![(web, fe.template_prefix@, VersionSource::First)] + (if fe.auth {
                        seq![(web, "auth/"@ + fe.template_prefix@, VersionSource::First)]
                    } else {
                        seq![]
                    }) + (if fe.billing {
                        seq![(web, "billing/"@ + fe.template_prefix@, VersionSource::First)]
                    } else {
                        seq![]
                    })
                    &&& steps.subrange(nf, nf + nb) == seq![(api, be.template_prefix@, VersionSource::Second)] + (if be.auth {
                        seq![(api, "auth/"@ + be.template_prefix@, VersionSource::Second)]
                    } else {
                        seq![]
                    }) + (if be.billing {
                        seq![(api, "billing/"@ + be.template_prefix@, VersionSource::Second)]
                    } else {
                        seq![]
                    })
                    &&& steps[nf + nb] == (root, "fullstack"@, VersionSource::Both)
                },
            }
        }),
{
    reveal_strlit("apps/web");
    reveal_strlit("apps/api");
    let steps = plan.plan_steps(root);
    match plan {
        ScaffoldPlan::Frontend(s) | ScaffoldPlan::Backend(s) => {
            let a = app_steps(root, s.template_prefix@, s.auth, s.billing, VersionSource::First);
            assert(steps.take(a.len() as int) =~= a);
        },
        ScaffoldPlan::Fullstack(fe, be) => {
            let web = under(root, "apps/web"@);
            let api = under(root, "apps/api"@);
            let a = app_steps(web, fe.template_prefix@, fe.auth, fe.billing, VersionSource::First);
            let b = app_steps(api, be.template_prefix@, be.auth, be.billing, VersionSource::Second);
            assert(steps.take(a.len() as int) =~= a);
            assert(steps.subrange(a.len() as int, (a.len() + b.len()) as int) =~= b);
        },
    }
}

/// A template under a batch's `prefix/` (and not among the `generate` command's templates):
/// a `.hbs` one is rendered to its path without the extension; a top-level one whose name starts
/// with `_` is copied to the dotfile of the same name; a template outside the batch is skipped.
pub proof fn law_template_paths(prefix: Seq<char>, rel: Seq<char>, other: Seq<char>)
    requires
        !contains_seq(prefix + "/"@ + rel, "/generate/"@),
    ensures
        rel.len() >= 4 && rel.subrange(rel.len() - 4, rel.len() as int) == ".hbs"@ ==> template_output_spec(
            prefix + "/"@ + rel,
            prefix,
        ) == Some((rel.take(rel.len() - 4), true)),
        rel.len() > 0 && rel[0] == '_' && !rel.contains('/') && !(rel.len() >= 4 && rel.subrange(
            rel.len() - 4,
            rel.len() as int,
        ) == ".hbs"@) ==> template_output_spec(prefix + "/"@ + rel, prefix) == Some(("."@ + rel.skip(1), false)),
        !has_prefix(other, prefix + "/"@) ==> template_output_spec(other, prefix) is None,
{
    reveal_strlit("/");
    reveal_strlit(".hbs");
    reveal_strlit(".");
    let pre = prefix + "/"@;
    let path = pre + rel;
    assert(path.take(pre.len() as int) =~= pre);
    assert(path.skip(pre.len() as int) =~= rel);
    if rel.len() >= 4 && rel.subrange(rel.len() - 4, rel.len() as int) == ".hbs"@ {
        assert(has_suffix(rel, ".hbs"@));
    }
    if rel.len() > 0 && rel[0] == '_' && !rel.contains('/') {
        crate::paths::lemma_last_slash(rel, rel.len() as int);
        if let Some(i) = crate::paths::last_slash_before(rel, rel.len() as int) {
            assert(rel[i] == '/');
            assert(rel.contains('/'));
        }
        assert(dir_part(rel).len() == 0);
    }
}

/// The versions a batch renders with: the first scaffolder's, the second's, or both, where a
/// package both resolve takes the second's version and every other package keeps its own.
pub proof fn law_version_sources(first: Map<Seq<char>, Seq<char>>, second: Map<Seq<char>, Seq<char>>, k: Seq<char>)
    ensures
        source_versions(VersionSource::First, first, second) == first,
        source_versions(VersionSource::Second, first, second) == second,
        source_versions(VersionSource::Both, first, second).contains_key(k) <==> (first.contains_key(k)
            || second.contains_key(k)),
        second.contains_key(k) ==> source_versions(VersionSource::Both, first, second)[k] == second[k],
        first.contains_key(k) && !second.contains_key(k) ==> source_versions(VersionSource::Both, first, second)[k]
            == first[k],
{
}

/// The offline versions hold the placeholder `0.0.0`, and among their keys are those of
/// TypeScript, Angular's core, the Jest jsdom environment and Stripe.
pub proof fn law_offline_placeholder()
    ensures
        placeholder_version() == "0.0.0"@,
        offline_keys().len() == 60,
        offline_keys().contains("typescript"@),
        offline_keys().contains("_angular_core"@),
        offline_keys().contains("jest_environment_jsdom"@),
        offline_keys().contains("stripe"@),
{
    let ks = offline_keys();
    assert(ks[7] == "_angular_core"@);
    assert(ks[32] == "jest_environment_jsdom"@);
    assert(ks[42] == "typescript"@);
    assert(ks[59] == "stripe"@);
}

/// The project's feature flags are the frontend's when it has one, else the backend's, else off.
pub proof fn law_flags_follow_the_frontend_first(f: bool, b: bool)
    ensures
        flag_of(Some(f), Some(b)) == f,
        flag_of(Some(f), None) == f,
        flag_of(None, Some(b)) == b,
        flag_of(None, None) == false,
{
}

/// The templates see the project's name first (then its PascalCase form), every package
/// version after the project's own fields, and the frontend's dev script, when there is one,
/// last, so a version never hides it.
pub proof fn law_template_field_order(d: TemplateData)
    ensures
        data_strings(d)[0] == ("name"@, d.name@),
        data_strings(d)[1] == ("pascal_name"@, d.pascal_name@),
        data_strings(d).subrange(7, 7 + d.versions.entries_view().len() as int) == d.versions.entries_view(),
        d.frontend_dev_script matches Some(script) ==> data_strings(d).last() == ("frontend_dev_script"@, script@),
        d.frontend_dev_script is None ==> data_strings(d).len() == 7 + d.versions.entries_view().len(),
{
    let base = seq![
        ("name"@, d.name@),
        ("pascal_name"@, d.pascal_name@),
        ("lambda_runtime"@, d.lambda_runtime@),
        ("lambda_handler"@, d.lambda_handler@),
        ("go_version"@, d.go_version@),
        ("node_version"@, d.node_version@),
        ("python_version"@, d.python_version@),
    ];
    let e = d.versions.entries_view();
    assert((base + e).subrange(7, 7 + e.len() as int) =~= e);
    assert(data_strings(d).subrange(7, 7 + e.len() as int) =~= e);
}

} // verus!
