//! The project kinds, frontend frameworks, backend runtimes and API frameworks the scaffolder
//! knows, with the lowercase names used for template folders, config values and CLI flags.

use crate::text::{ascii_to_lower, chars_of};
use vstd::prelude::*;

verus! {

#[derive(Clone, Copy, Debug, PartialEq, Eq, Structural)]
pub enum ProjectType {
    Frontend,
    Backend,
    Fullstack,
}

#[derive(Clone, Copy, Debug, PartialEq, Eq, Structural)]
pub enum Frontend {
    React,
    Angular,
    Vue,
}

#[derive(Clone, Copy, Debug, PartialEq, Eq, Structural)]
pub enum Runtime {
    Go,
    Node,
    Python,
}

#[derive(Clone, Copy, Debug, PartialEq, Eq, Structural)]
pub enum ApiFramework {
    Gin,
    Echo,
    Fiber,
    Express,
    Fastify,
    Fastapi,
    Flask,
}

/// ASCII case-insensitive equality (`str::eq_ignore_ascii_case`).
pub open spec fn eq_ignore_case(a: Seq<char>, b: Seq<char>) -> bool {
    a.len() == b.len() && forall|i: int| 0 <= i < a.len() ==> ascii_to_lower(a[i]) == ascii_to_lower(
        b[i],
    )
}

fn lower_ascii(c: char) -> (r: char)
    ensures
        r == ascii_to_lower(c),
{
    if 'A' <= c && c <= 'Z' {
        ((c as u8) + 32) as char
    } else {
        c
    }
}

/// `str::eq_ignore_ascii_case`.
pub fn eq_ignore_ascii_case(a: &str, b: &str) -> (r: bool)
    ensures
        r == eq_ignore_case(a@, b@),
{
    let av = chars_of(a);
    let bv = chars_of(b);
    if av.len() != bv.len() {
        return false;
    }
    let mut i: usize = 0;
    while i < av.len()
        invariant
            av@ == a@,
            bv@ == b@,
            av.len() == bv.len(),
            i <= av.len(),
            forall|k: int| 0 <= k < i ==> ascii_to_lower(av@[k]) == ascii_to_lower(bv@[k]),
        decreases av.len() - i,
    {
        if lower_ascii(av[i]) != lower_ascii(bv[i]) {
            return false;
        }
        i = i + 1;
    }
    true
}

// ── Names ────────────────────────────────────────────────────────────────────

impl ProjectType {
    pub open spec fn name_of(self) -> Seq<char> {
        match self {
            ProjectType::Frontend => "frontend"@,
            ProjectType::Backend => "backend"@,
            ProjectType::Fullstack => "fullstack"@,
        }
    }

    /// The lowercase name (what the type displays as).
    pub fn name(&self) -> (r: &'static str)
        ensures
            r@ == self.name_of(),
    {
        match self {
            ProjectType::Frontend => "frontend",
            ProjectType::Backend => "backend",
            ProjectType::Fullstack => "fullstack",
        }
    }

    /// Every variant, in declaration order.
    pub fn variants() -> (r: Vec<ProjectType>)
        ensures
            r@ == seq![ProjectType::Frontend, ProjectType::Backend, ProjectType::Fullstack],
    {
        vec![ProjectType::Frontend, ProjectType::Backend, ProjectType::Fullstack]
    }

    pub open spec fn parse_spec(s: Seq<char>) -> Option<ProjectType> {
        if eq_ignore_case(s, "frontend"@) {
            Some(ProjectType::Frontend)
        } else if eq_ignore_case(s, "backend"@) {
            Some(ProjectType::Backend)
        } else if eq_ignore_case(s, "fullstack"@) {
            Some(ProjectType::Fullstack)
        } else {
            None
        }
    }

    /// The variant whose name equals `s` ignoring ASCII case.
    pub fn parse(s: &str) -> (r: Option<ProjectType>)
        ensures
            r == ProjectType::parse_spec(s@),
    {
        if eq_ignore_ascii_case(s, "frontend") {
            Some(ProjectType::Frontend)
        } else if eq_ignore_ascii_case(s, "backend") {
            Some(ProjectType::Backend)
        } else if eq_ignore_ascii_case(s, "fullstack") {
            Some(ProjectType::Fullstack)
        } else {
            None
        }
    }
}

impl Frontend {
    pub open spec fn name_of(self) -> Seq<char> {
        match self {
            Frontend::React => "react"@,
            Frontend::Angular => "angular"@,
            Frontend::Vue => "vue"@,
        }
    }

    /// The lowercase name (what the type displays as).
    pub fn name(&self) -> (r: &'static str)
        ensures
            r@ == self.name_of(),
    {
        match self {
            Frontend::React => "react",
            Frontend::Angular => "angular",
            Frontend::Vue => "vue",
        }
    }

    /// Every variant, in declaration order.
    pub fn variants() -> (r: Vec<Frontend>)
        ensures
            r@ == seq![Frontend::React, Frontend::Angular, Frontend::Vue],
    {
        vec![Frontend::React, Frontend::Angular, Frontend::Vue]
    }

    pub open spec fn parse_spec(s: Seq<char>) -> Option<Frontend> {
        if eq_ignore_case(s, "react"@) {
            Some(Frontend::React)
        } else if eq_ignore_case(s, "angular"@) {
            Some(Frontend::Angular)
        } else if eq_ignore_case(s, "vue"@) {
            Some(Frontend::Vue)
        } else {
            None
        }
    }

    /// The variant whose name equals `s` ignoring ASCII case.
    pub fn parse(s: &str) -> (r: Option<Frontend>)
        ensures
            r == Frontend::parse_spec(s@),
    {
        if eq_ignore_ascii_case(s, "react") {
            Some(Frontend::React)
        } else if eq_ignore_ascii_case(s, "angular") {
            Some(Frontend::Angular)
        } else if eq_ignore_ascii_case(s, "vue") {
            Some(Frontend::Vue)
        } else {
            None
        }
    }

    pub open spec fn dev_script_of(self) -> Seq<char> {
        match self {
            Frontend::Angular => "start"@,
            Frontend::React | Frontend::Vue => "dev"@,
        }
    }

    /// npm script name used to start the dev server.
    pub fn dev_script(&self) -> (r: &'static str)
        ensures
            r@ == self.dev_script_of(),
    {
        match self {
            Frontend::Angular => "start",
            Frontend::React | Frontend::Vue => "dev",
        }
    }
}

impl Runtime {
    pub open spec fn name_of(self) -> Seq<char> {
        match self {
            Runtime::Go => "go"@,
            Runtime::Node => "node"@,
            Runtime::Python => "python"@,
        }
    }

    /// The lowercase name (what the type displays as).
    pub fn name(&self) -> (r: &'static str)
        ensures
            r@ == self.name_of(),
    {
        match self {
            Runtime::Go => "go",
            Runtime::Node => "node",
            Runtime::Python => "python",
        }
    }

    /// Every variant, in declaration order.
    pub fn variants() -> (r: Vec<Runtime>)
        ensures
            r@ == seq![Runtime::Go, Runtime::Node, Runtime::Python],
    {
        vec![Runtime::Go, Runtime::Node, Runtime::Python]
    }

    pub open spec fn parse_spec(s: Seq<char>) -> Option<Runtime> {
        if eq_ignore_case(s, "go"@) {
            Some(Runtime::Go)
        } else if eq_ignore_case(s, "node"@) {
            Some(Runtime::Node)
        } else if eq_ignore_case(s, "python"@) {
            Some(Runtime::Python)
        } else {
            None
        }
    }

    /// The variant whose name equals `s` ignoring ASCII case.
    pub fn parse(s: &str) -> (r: Option<Runtime>)
        ensures
            r == Runtime::parse_spec(s@),
    {
        if eq_ignore_ascii_case(s, "go") {
            Some(Runtime::Go)
        } else if eq_ignore_ascii_case(s, "node") {
            Some(Runtime::Node)
        } else if eq_ignore_ascii_case(s, "python") {
            Some(Runtime::Python)
        } else {
            None
        }
    }

    pub open spec fn api_frameworks_of(self) -> Seq<ApiFramework> {
        match self {
            Runtime::Go => seq![ApiFramework::Gin, ApiFramework::Echo, ApiFramework::Fiber],
            Runtime::Node => seq![ApiFramework::Express, ApiFramework::Fastify],
            Runtime::Python => seq![ApiFramework::Fastapi, ApiFramework::Flask],
        }
    }

    /// Ordered list of API frameworks available for this runtime.
    pub fn api_frameworks(&self) -> (r: Vec<ApiFramework>)
        ensures
            r@ == self.api_frameworks_of(),
    {
        match self {
            Runtime::Go => vec![ApiFramework::Gin, ApiFramework::Echo, ApiFramework::Fiber],
            Runtime::Node => vec![ApiFramework::Express, ApiFramework::Fastify],
            Runtime::Python => vec![ApiFramework::Fastapi, ApiFramework::Flask],
        }
    }
}

impl ApiFramework {
    pub open spec fn name_of(self) -> Seq<char> {
        match self {
            ApiFramework::Gin => "gin"@,
            ApiFramework::Echo => "echo"@,
            ApiFramework::Fiber => "fiber"@,
            ApiFramework::Express => "express"@,
            ApiFramework::Fastify => "fastify"@,
            ApiFramework::Fastapi => "fastapi"@,
            ApiFramework::Flask => "flask"@,
        }
    }

    /// The lowercase name (what the type displays as).
    pub fn name(&self) -> (r: &'static str)
        ensures
            r@ == self.name_of(),
    {
        match self {
            ApiFramework::Gin => "gin",
            ApiFramework::Echo => "echo",
            ApiFramework::Fiber => "fiber",
            ApiFramework::Express => "express",
            ApiFramework::Fastify => "fastify",
            ApiFramework::Fastapi => "fastapi",
            ApiFramework::Flask => "flask",
        }
    }

    /// Every variant, in declaration order.
    pub fn variants() -> (r: Vec<ApiFramework>)
        ensures
            r@ == seq![
                ApiFramework::Gin,
                ApiFramework::Echo,
                ApiFramework::Fiber,
                ApiFramework::Express,
                ApiFramework::Fastify,
                ApiFramework::Fastapi,
                ApiFramework::Flask,
            ],
    {
        vec![
            ApiFramework::Gin,
            ApiFramework::Echo,
            ApiFramework::Fiber,
            ApiFramework::Express,
            ApiFramework::Fastify,
            ApiFramework::Fastapi,
            ApiFramework::Flask,
        ]
    }

    pub open spec fn parse_spec(s: Seq<char>) -> Option<ApiFramework> {
        if eq_ignore_case(s, "gin"@) {
            Some(ApiFramework::Gin)
        } else if eq_ignore_case(s, "echo"@) {
            Some(ApiFramework::Echo)
        } else if eq_ignore_case(s, "fiber"@) {
            Some(ApiFramework::Fiber)
        } else if eq_ignore_case(s, "express"@) {
            Some(ApiFramework::Express)
        } else if eq_ignore_case(s, "fastify"@) {
            Some(ApiFramework::Fastify)
        } else if eq_ignore_case(s, "fastapi"@) {
            Some(ApiFramework::Fastapi)
        } else if eq_ignore_case(s, "flask"@) {
            Some(ApiFramework::Flask)
        } else {
            None
        }
    }

    /// The variant whose name equals `s` ignoring ASCII case.
    pub fn parse(s: &str) -> (r: Option<ApiFramework>)
        ensures
            r == ApiFramework::parse_spec(s@),
    {
        if eq_ignore_ascii_case(s, "gin") {
            Some(ApiFramework::Gin)
        } else if eq_ignore_ascii_case(s, "echo") {
            Some(ApiFramework::Echo)
        } else if eq_ignore_ascii_case(s, "fiber") {
            Some(ApiFramework::Fiber)
        } else if eq_ignore_ascii_case(s, "express") {
            Some(ApiFramework::Express)
        } else if eq_ignore_ascii_case(s, "fastify") {
            Some(ApiFramework::Fastify)
        } else if eq_ignore_ascii_case(s, "fastapi") {
            Some(ApiFramework::Fastapi)
        } else if eq_ignore_ascii_case(s, "flask") {
            Some(ApiFramework::Flask)
        } else {
            None
        }
    }

    pub open spec fn runtime_of(self) -> Runtime {
        match self {
            ApiFramework::Gin | ApiFramework::Echo | ApiFramework::Fiber => Runtime::Go,
            ApiFramework::Express | ApiFramework::Fastify => Runtime::Node,
            ApiFramework::Fastapi | ApiFramework::Flask => Runtime::Python,
        }
    }

    /// The runtime this framework belongs to.
    pub fn runtime(&self) -> (r: Runtime)
        ensures
            r == self.runtime_of(),
    {
        match self {
            ApiFramework::Gin | ApiFramework::Echo | ApiFramework::Fiber => Runtime::Go,
            ApiFramework::Express | ApiFramework::Fastify => Runtime::Node,
            ApiFramework::Fastapi | ApiFramework::Flask => Runtime::Python,
        }
    }

    pub open spec fn python_dev_args_of(self) -> Seq<Seq<char>> {
        match self {
            ApiFramework::Fastapi => seq!["uvicorn"@, "main:app"@, "--reload"@],
            ApiFramework::Flask => seq!["flask"@, "run"@, "--debug"@],
            _ => seq!["main"@],
        }
    }

    /// Arguments passed to `python3 -m <args>` when running the dev server.
    pub fn python_dev_args(&self) -> (r: Vec<&'static str>)
        ensures
            r@.map_values(|a: &'static str| a@) == self.python_dev_args_of(),
    {
        let r = match self {
            ApiFramework::Fastapi => vec!["uvicorn", "main:app", "--reload"],
            ApiFramework::Flask => vec!["flask", "run", "--debug"],
            _ => vec!["main"],
        };
        assert(r@.map_values(|a: &'static str| a@) =~= self.python_dev_args_of());
        r
    }
}

// ── Laws ─────────────────────────────────────────────────────────────────────

/// A runtime's API frameworks are exactly the frameworks that belong to that runtime.
pub proof fn law_api_frameworks_match_runtime(rt: Runtime, fw: ApiFramework)
    ensures
        rt.api_frameworks_of().contains(fw) <==> fw.runtime_of() == rt,
{
    let fws = rt.api_frameworks_of();
    if fw.runtime_of() == rt {
        let i: int = match fw {
            ApiFramework::Gin | ApiFramework::Express | ApiFramework::Fastapi => 0,
            ApiFramework::Echo | ApiFramework::Fastify | ApiFramework::Flask => 1,
            ApiFramework::Fiber => 2,
        };
        assert(fws[i] == fw);
    }
}

/// Every name parses back to the variant it names.
pub proof fn law_names_parse_back(p: ProjectType, f: Frontend, r: Runtime, a: ApiFramework)
    ensures
        ProjectType::parse_spec(p.name_of()) == Some(p),
        Frontend::parse_spec(f.name_of()) == Some(f),
        Runtime::parse_spec(r.name_of()) == Some(r),
        ApiFramework::parse_spec(a.name_of()) == Some(a),
{
    reveal_strlit("frontend");
    reveal_strlit("backend");
    reveal_strlit("fullstack");
    reveal_strlit("react");
    reveal_strlit("angular");
    reveal_strlit("vue");
    reveal_strlit("go");
    reveal_strlit("node");
    reveal_strlit("python");
    reveal_strlit("gin");
    reveal_strlit("echo");
    reveal_strlit("fiber");
    reveal_strlit("express");
    reveal_strlit("fastify");
    reveal_strlit("fastapi");
    reveal_strlit("flask");
    match a {
        ApiFramework::Fastify => {
            lemma_differ_at("fastify"@, "express"@, 0);
        },
        ApiFramework::Flask => {
            lemma_differ_at("flask"@, "fiber"@, 1);
        },
        ApiFramework::Fastapi => {
            lemma_differ_at("fastapi"@, "express"@, 0);
            lemma_differ_at("fastapi"@, "fastify"@, 4);
        },
        ApiFramework::Express => {},
        _ => {},
    }
}

pub proof fn lemma_differ_at(a: Seq<char>, b: Seq<char>, k: int)
    requires
        0 <= k < a.len(),
        ascii_to_lower(a[k]) != ascii_to_lower(b[k]),
    ensures
        !eq_ignore_case(a, b),
{
}

} // verus!
