//! `m2s2 new`: settling every choice of a new project (from flags, or by asking), then the
//! scaffolding plan and the `.m2s2.json` it leaves behind.

use crate::config::M2S2Config;
use crate::scaffold::scaffolder::{backend_scaffolder, frontend_scaffolder, Runtimes};
use crate::scaffold::{ScaffoldPlan, Scaffolder};
use crate::text::{cat3, owned, str_equal};
use crate::types::{ApiFramework, Frontend, ProjectType, Runtime};
use vstd::prelude::*;

verus! {

pub struct NewArgs {
    /// Project name
    pub name: String,
    /// Project type
    pub project_type: Option<ProjectType>,
    /// Frontend framework
    pub framework: Option<Frontend>,
    /// Backend runtime
    pub runtime: Option<Runtime>,
    /// API framework — gin/echo/fiber (Go), express/fastify (Node), fastapi/flask (Python)
    pub api_framework: Option<ApiFramework>,
    /// Include AWS Cognito authentication scaffolding (`yes` or `no`)
    pub auth: Option<String>,
    /// Include Stripe billing scaffolding (`yes` or `no`)
    pub billing: Option<String>,
    /// Skip running npm install / go mod tidy / pip install after scaffolding
    pub skip_install: bool,
    /// Skip network calls to resolve package versions
    pub offline: bool,
}

/// The choices settled so far, from flags and from answered questions.
pub struct NewAnswers {
    pub project_type: Option<ProjectType>,
    pub framework: Option<Frontend>,
    pub runtime: Option<Runtime>,
    pub api_framework: Option<ApiFramework>,
    pub auth: Option<bool>,
    pub billing: Option<bool>,
}

/// What to ask next.
#[derive(Clone, Copy, Debug, PartialEq, Eq, Structural)]
pub enum Question {
    ProjectType,
    Framework,
    Runtime,
    /// Which API framework, among those of this runtime.
    ApiFramework(Runtime),
    Auth,
    Billing,
}

/// Every choice of the new project.
pub struct NewChoices {
    pub project_type: ProjectType,
    pub framework: Option<Frontend>,
    pub runtime: Option<Runtime>,
    pub api_framework: Option<ApiFramework>,
    pub auth: bool,
    pub billing: bool,
}

pub open spec fn yes_no_spec(arg: Option<Seq<char>>) -> Option<bool> {
    match arg {
        Some(a) => if a == "yes"@ {
            Some(true)
        } else if a == "no"@ {
            Some(false)
        } else {
            None
        },
        None => None,
    }
}

/// A `yes`/`no` flag as a decision; anything else leaves the question open.
pub fn yes_no(arg: Option<&str>) -> (r: Option<bool>)
    ensures
        r == yes_no_spec(
            match arg {
                Some(a) => Some(a@),
                None => None,
            },
        ),
{
    match arg {
        Some(a) => if str_equal(a, "yes") {
            Some(true)
        } else if str_equal(a, "no") {
            Some(false)
        } else {
            None
        },
        None => None,
    }
}

pub open spec fn opt_text(o: Option<String>) -> Option<Seq<char>> {
    match o {
        Some(s) => Some(s@),
        None => None,
    }
}

fn as_str_opt(o: &Option<String>) -> (r: Option<&str>)
    ensures
        match r {
            Some(s) => o matches Some(t) && s@ == t@,
            None => o is None,
        },
{
    match o {
        Some(s) => Some(s.as_str()),
        None => None,
    }
}

/// The choices the flags settle.
pub fn initial_answers(args: &NewArgs) -> (r: NewAnswers)
    ensures
        r.project_type == args.project_type,
        r.framework == args.framework,
        r.runtime == args.runtime,
        r.api_framework == args.api_framework,
        r.auth == yes_no_spec(opt_text(args.auth)),
        r.billing == yes_no_spec(opt_text(args.billing)),
{
    NewAnswers {
        project_type: args.project_type,
        framework: args.framework,
        runtime: args.runtime,
        api_framework: args.api_framework,
        auth: yes_no(as_str_opt(&args.auth)),
        billing: yes_no(as_str_opt(&args.billing)),
    }
}

/// The next open question: the project type, then the frontend framework (not for a
/// backend), then the runtime and API framework (not for a frontend; the runtime is not asked
/// when the API framework is known), then auth and billing.
pub open spec fn next_question_spec(a: NewAnswers) -> Option<Question> {
    match a.project_type {
        None => Some(Question::ProjectType),
        Some(pt) => if pt != ProjectType::Backend && a.framework is None {
            Some(Question::Framework)
        } else if pt != ProjectType::Frontend && a.api_framework is None {
            match a.runtime {
                None => Some(Question::Runtime),
                Some(rt) => Some(Question::ApiFramework(rt)),
            }
        } else if a.auth is None {
            Some(Question::Auth)
        } else if a.billing is None {
            Some(Question::Billing)
        } else {
            None
        },
    }
}

pub fn next_question(a: &NewAnswers) -> (r: Option<Question>)
    ensures
        r == next_question_spec(*a),
{
    match a.project_type {
        None => Some(Question::ProjectType),
        Some(pt) => if pt != ProjectType::Backend && a.framework.is_none() {
            Some(Question::Framework)
        } else if pt != ProjectType::Frontend && a.api_framework.is_none() {
            match a.runtime {
                None => Some(Question::Runtime),
                Some(rt) => Some(Question::ApiFramework(rt)),
            }
        } else if a.auth.is_none() {
            Some(Question::Auth)
        } else if a.billing.is_none() {
            Some(Question::Billing)
        } else {
            None
        },
    }
}

/// The settled choices once nothing is left to ask: a frontend framework only for projects
/// with a frontend; a runtime and API framework only for projects with a backend, the runtime
/// defaulting to the API framework's own.
pub fn choices(a: &NewAnswers) -> (r: NewChoices)
    requires
        next_question_spec(*a) is None,
    ensures
        a.project_type == Some(r.project_type),
        r.framework == (if r.project_type != ProjectType::Backend {
            a.framework
        } else {
            None
        }),
        r.api_framework == (if r.project_type != ProjectType::Frontend {
            a.api_framework
        } else {
            None
        }),
        r.runtime == (if r.project_type != ProjectType::Frontend {
            match a.runtime {
                Some(rt) => Some(rt),
                None => Some(a.api_framework->0.runtime_of()),
            }
        } else {
            None
        }),
        a.auth == Some(r.auth),
        a.billing == Some(r.billing),
        r.project_type != ProjectType::Backend ==> r.framework is Some,
        r.project_type != ProjectType::Frontend ==> r.api_framework is Some && r.runtime is Some,
{
    let pt = match a.project_type {
        Some(pt) => pt,
        None => ProjectType::Frontend,
    };
    let framework = if pt != ProjectType::Backend {
        a.framework
    } else {
        None
    };
    let (runtime, api_framework) = if pt != ProjectType::Frontend {
        match a.api_framework {
            Some(fw) => (
                Some(
                    match a.runtime {
                        Some(rt) => rt,
                        None => fw.runtime(),
                    },
                ),
                Some(fw),
            ),
            None => (a.runtime, None),
        }
    } else {
        (None, None)
    };
    NewChoices {
        project_type: pt,
        framework,
        runtime,
        api_framework,
        auth: match a.auth {
            Some(b) => b,
            None => false,
        },
        billing: match a.billing {
            Some(b) => b,
            None => false,
        },
    }
}

/// The scaffolding plan for the settled choices: the frontend scaffolder, the backend one, or
/// both for a fullstack project, all with the same auth and billing settings.
pub fn plan_for(c: &NewChoices, runtimes: &Runtimes) -> (r: ScaffoldPlan)
    requires
        c.project_type != ProjectType::Backend ==> c.framework is Some,
        c.project_type != ProjectType::Frontend ==> c.api_framework is Some,
    ensures
        match c.project_type {
            ProjectType::Frontend => r matches ScaffoldPlan::Frontend(fe) && frontend_scaffolder(
                fe,
                c.framework->0,
                c.auth,
                c.billing,
            ),
            ProjectType::Backend => r matches ScaffoldPlan::Backend(be) && backend_scaffolder(
                be,
                c.api_framework->0,
                c.auth,
                c.billing,
                *runtimes,
            ),
            ProjectType::Fullstack => r matches ScaffoldPlan::Fullstack(fe, be) && frontend_scaffolder(
                fe,
                c.framework->0,
                c.auth,
                c.billing,
            ) && backend_scaffolder(be, c.api_framework->0, c.auth, c.billing, *runtimes),
        },
{
    match c.project_type {
        ProjectType::Frontend => {
            let fw = match c.framework {
                Some(f) => f,
                None => Frontend::React,
            };
            ScaffoldPlan::Frontend(Scaffolder::for_frontend(fw, c.auth, c.billing))
        },
        ProjectType::Backend => {
            let api = match c.api_framework {
                Some(a) => a,
                None => ApiFramework::Gin,
            };
            ScaffoldPlan::Backend(Scaffolder::for_backend(api, c.auth, c.billing, runtimes))
        },
        ProjectType::Fullstack => {
            let fw = match c.framework {
                Some(f) => f,
                None => Frontend::React,
            };
            let api = match c.api_framework {
                Some(a) => a,
                None => ApiFramework::Gin,
            };
            ScaffoldPlan::Fullstack(
                Scaffolder::for_frontend(fw, c.auth, c.billing),
                Scaffolder::for_backend(api, c.auth, c.billing, runtimes),
            )
        },
    }
}

/// How the plan is announced: its template prefix, or both joined by ` + `.
pub fn plan_label(plan: &ScaffoldPlan) -> (r: String)
    ensures
        r@ == match plan {
            ScaffoldPlan::Frontend(s) | ScaffoldPlan::Backend(s) => s.template_prefix@,
            ScaffoldPlan::Fullstack(fe, be) => fe.template_prefix@ + " + "@ + be.template_prefix@,
        },
{
    match plan {
        ScaffoldPlan::Frontend(s) | ScaffoldPlan::Backend(s) => owned(s.template_prefix),
        ScaffoldPlan::Fullstack(fe, be) => cat3(fe.template_prefix, " + ", be.template_prefix),
    }
}

/// The `.m2s2.json` the new project gets: each choice by its lowercase name.
pub fn project_config(c: &NewChoices) -> (r: M2S2Config)
    ensures
        opt_text(r.framework) == (match c.framework {
            Some(f) => Some(f.name_of()),
            None => None,
        }),
        opt_text(r.api_framework) == (match c.api_framework {
            Some(a) => Some(a.name_of()),
            None => None,
        }),
        opt_text(r.project_type) == Some(c.project_type.name_of()),
        opt_text(r.runtime) == (match c.runtime {
            Some(rt) => Some(rt.name_of()),
            None => None,
        }),
        r.auth == c.auth,
        r.billing == c.billing,
{
    M2S2Config {
        framework: match c.framework {
            Some(f) => Some(owned(f.name())),
            None => None,
        },
        api_framework: match c.api_framework {
            Some(a) => Some(owned(a.name())),
            None => None,
        },
        project_type: Some(owned(c.project_type.name())),
        runtime: match c.runtime {
            Some(rt) => Some(owned(rt.name())),
            None => None,
        },
        auth: c.auth,
        billing: c.billing,
    }
}


/// The wizard stops asking exactly when everything a project of its type needs is settled:
/// its type; the frontend framework unless it is a backend; the API framework unless it is a
/// frontend; auth; and billing. While something is open, the question asked is about
/// something still open.
pub proof fn law_wizard_asks_until_settled(a: NewAnswers)
    ensures
        next_question_spec(a) is None <==> (a.project_type matches Some(pt) && (pt != ProjectType::Backend
            ==> a.framework is Some) && (pt != ProjectType::Frontend ==> a.api_framework is Some)
            && a.auth is Some && a.billing is Some),
        next_question_spec(a) == Some(Question::ProjectType) ==> a.project_type is None,
        next_question_spec(a) == Some(Question::Framework) ==> a.framework is None,
        next_question_spec(a) == Some(Question::Runtime) ==> a.runtime is None && a.api_framework is None,
        next_question_spec(a) matches Some(Question::ApiFramework(rt)) ==> a.api_framework is None
            && a.runtime == Some(rt),
        next_question_spec(a) == Some(Question::Auth) ==> a.auth is None,
        next_question_spec(a) == Some(Question::Billing) ==> a.billing is None,
{
}

} // verus!
