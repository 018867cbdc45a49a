//! `m2s2 generate component|page|service`: where the generated files go, which templates
//! they come from, and what they are called.

use crate::paths::{join, join_spec};
use crate::text::{cat, cat3, owned, str_equal};
use crate::utils::{kebab_case, pascal_case, to_kebab_case, to_pascal_case};
use vstd::prelude::*;

verus! {

pub struct ComponentArgs {
    /// Component name (e.g. MyCard, my-card)
    pub name: String,
    /// Framework to target; detected from .m2s2.json or package.json if omitted
    pub framework: Option<String>,
    /// Output directory (default: src/components/<Name> for React/Vue,
    /// src/app/components/<name> for Angular)
    pub path: Option<String>,
}

pub struct PageArgs {
    /// Page name (e.g. UserProfile, user-profile)
    pub name: String,
    /// Framework to target; detected from .m2s2.json or package.json if omitted
    pub framework: Option<String>,
    /// Output directory
    pub path: Option<String>,
}

pub struct ServiceArgs {
    /// Service name (e.g. Auth, user-data)
    pub name: String,
    /// Output directory (overrides default: src/app/services)
    pub path: Option<String>,
}

pub enum GenerateCommands {
    /// Generate a component
    Component(ComponentArgs),
    /// Generate a page
    Page(PageArgs),
    /// Generate an Angular service
    Service(ServiceArgs),
}

pub struct GenerateArgs {
    pub command: GenerateCommands,
}

/// The files to generate: the names the artifact goes by, the directory, and each template with
/// the file it becomes.
pub struct GeneratePlan {
    pub pascal: String,
    pub kebab: String,
    pub out_dir: String,
    pub files: Vec<(&'static str, String)>,
}

pub open spec fn files_view(files: Seq<(&'static str, String)>) -> Seq<(Seq<char>, Seq<char>)> {
    files.map_values(|f: (&'static str, String)| (f.0@, f.1@))
}

/// The three templates of one framework, with the file names they become.
pub open spec fn three(
    t1: Seq<char>,
    f1: Seq<char>,
    t2: Seq<char>,
    f2: Seq<char>,
    t3: Seq<char>,
    f3: Seq<char>,
) -> Seq<(Seq<char>, Seq<char>)> {
    seq![(t1, f1), (t2, f2), (t3, f3)]
}

/// The component files for `framework`: React and Vue name them after the component, anything
/// else gets the Angular component files named after its kebab-case form.
pub open spec fn component_files(framework: Seq<char>, pascal: Seq<char>, kebab: Seq<char>) -> Seq<
    (Seq<char>, Seq<char>),
> {
    if framework == "react"@ {
        three(
            "generate/react/component.tsx.hbs"@,
            pascal + ".tsx"@,
            "generate/react/component.scss.hbs"@,
            pascal + ".scss"@,
            "generate/react/index.ts.hbs"@,
            "index.ts"@,
        )
    } else if framework == "vue"@ {
        three(
            "generate/vue/component.vue.hbs"@,
            pascal + ".vue"@,
            "generate/vue/component.scss.hbs"@,
            pascal + ".scss"@,
            "generate/vue/index.ts.hbs"@,
            "index.ts"@,
        )
    } else {
        three(
            "generate/angular/component.ts.hbs"@,
            kebab + ".component.ts"@,
            "generate/angular/component.html.hbs"@,
            kebab + ".component.html"@,
            "generate/angular/component.scss.hbs"@,
            kebab + ".component.scss"@,
        )
    }
}

/// Where a component goes: `<path>/<Pascal>` when a path is given, else
/// `src/components/<Pascal>` for React and Vue and `src/app/components/<kebab>` otherwise.
pub open spec fn component_dir(framework: Seq<char>, path: Option<Seq<char>>, pascal: Seq<char>, kebab: Seq<char>) -> Seq<
    char,
> {
    match path {
        Some(p) => join_spec(p, pascal),
        None => if framework == "react"@ || framework == "vue"@ {
            join_spec("src/components"@, pascal)
        } else {
            join_spec("src/app/components"@, kebab)
        },
    }
}

pub open spec fn opt_chars(o: Option<&str>) -> Option<Seq<char>> {
    match o {
        Some(s) => Some(s@),
        None => None,
    }
}

fn add_file(files: &mut Vec<(&'static str, String)>, template: &'static str, name: String)
    ensures
        files_view(final(files)@) == files_view(old(files)@).push((template@, name@)),
{
    let ghost before = files@;
    files.push((template, name));
    assert(files_view(files@) =~= files_view(before).push((template@, name@)));
}

/// The component `name` for `framework`.
pub fn component_plan(name: &str, framework: &str, path: Option<&str>) -> (r: GeneratePlan)
    ensures
        r.pascal@ == pascal_case(name@),
        r.kebab@ == kebab_case(pascal_case(name@)),
        r.out_dir@ == component_dir(framework@, opt_chars(path), r.pascal@, r.kebab@),
        files_view(r.files@) == component_files(framework@, r.pascal@, r.kebab@),
{
    let pascal = to_pascal_case(name);
    let kebab = to_kebab_case(pascal.as_str());
    let react = str_equal(framework, "react");
    let vue = str_equal(framework, "vue");
    let out_dir = match path {
        Some(p) => join(p, pascal.as_str()),
        None => if react || vue {
            join("src/components", pascal.as_str())
        } else {
            join("src/app/components", kebab.as_str())
        },
    };
    let mut files: Vec<(&'static str, String)> = Vec::new();
    if react {
        add_file(&mut files, "generate/react/component.tsx.hbs", cat(pascal.as_str(), ".tsx"));
        add_file(&mut files, "generate/react/component.scss.hbs", cat(pascal.as_str(), ".scss"));
        add_file(&mut files, "generate/react/index.ts.hbs", owned("index.ts"));
    } else if vue {
        add_file(&mut files, "generate/vue/component.vue.hbs", cat(pascal.as_str(), ".vue"));
        add_file(&mut files, "generate/vue/component.scss.hbs", cat(pascal.as_str(), ".scss"));
        add_file(&mut files, "generate/vue/index.ts.hbs", owned("index.ts"));
    } else {
        add_file(&mut files, "generate/angular/component.ts.hbs", cat(kebab.as_str(), ".component.ts"));
        add_file(
            &mut files,
            "generate/angular/component.html.hbs",
            cat(kebab.as_str(), ".component.html"),
        );
        add_file(
            &mut files,
            "generate/angular/component.scss.hbs",
            cat(kebab.as_str(), ".component.scss"),
        );
    }
    assert(files_view(files@) =~= component_files(framework@, pascal@, kebab@));
    GeneratePlan { pascal, kebab, out_dir, files }
}

/// The page files for `framework`.
pub open spec fn page_files(framework: Seq<char>, pascal: Seq<char>, kebab: Seq<char>) -> Seq<
    (Seq<char>, Seq<char>),
> {
    if framework == "react"@ {
        three(
            "generate/react/page.tsx.hbs"@,
            pascal + "Page.tsx"@,
            "generate/react/page.scss.hbs"@,
            pascal + "Page.scss"@,
            "generate/react/page-index.ts.hbs"@,
            "index.ts"@,
        )
    } else if framework == "vue"@ {
        three(
            "generate/vue/page.vue.hbs"@,
            pascal + "Page.vue"@,
            "generate/vue/page.scss.hbs"@,
            pascal + "Page.scss"@,
            "generate/vue/page-index.ts.hbs"@,
            "index.ts"@,
        )
    } else {
        three(
            "generate/angular/page.ts.hbs"@,
            kebab + ".component.ts"@,
            "generate/angular/page.html.hbs"@,
            kebab + ".component.html"@,
            "generate/angular/page.scss.hbs"@,
            kebab + ".component.scss"@,
        )
    }
}

/// Where a page goes: `<path>/<Pascal>` when a path is given, else `src/app/pages/<kebab>` for
/// Angular and `src/pages/<Pascal>` otherwise.
pub open spec fn page_dir(framework: Seq<char>, path: Option<Seq<char>>, pascal: Seq<char>, kebab: Seq<char>) -> Seq<
    char,
> {
    match path {
        Some(p) => join_spec(p, pascal),
        None => if framework == "angular"@ {
            join_spec("src/app/pages"@, kebab)
        } else {
            join_spec("src/pages"@, pascal)
        },
    }
}

/// The page `name` for `framework`.
pub fn page_plan(name: &str, framework: &str, path: Option<&str>) -> (r: GeneratePlan)
    ensures
        r.pascal@ == pascal_case(name@),
        r.kebab@ == kebab_case(pascal_case(name@)),
        r.out_dir@ == page_dir(framework@, opt_chars(path), r.pascal@, r.kebab@),
        files_view(r.files@) == page_files(framework@, r.pascal@, r.kebab@),
{
    let pascal = to_pascal_case(name);
    let kebab = to_kebab_case(pascal.as_str());
    let react = str_equal(framework, "react");
    let vue = str_equal(framework, "vue");
    let angular = str_equal(framework, "angular");
    let out_dir = match path {
        Some(p) => join(p, pascal.as_str()),
        None => if angular {
            join("src/app/pages", kebab.as_str())
        } else {
            join("src/pages", pascal.as_str())
        },
    };
    let mut files: Vec<(&'static str, String)> = Vec::new();
    if react {
        add_file(&mut files, "generate/react/page.tsx.hbs", cat(pascal.as_str(), "Page.tsx"));
        add_file(&mut files, "generate/react/page.scss.hbs", cat(pascal.as_str(), "Page.scss"));
        add_file(&mut files, "generate/react/page-index.ts.hbs", owned("index.ts"));
    } else if vue {
        add_file(&mut files, "generate/vue/page.vue.hbs", cat(pascal.as_str(), "Page.vue"));
        add_file(&mut files, "generate/vue/page.scss.hbs", cat(pascal.as_str(), "Page.scss"));
        add_file(&mut files, "generate/vue/page-index.ts.hbs", owned("index.ts"));
    } else {
        add_file(&mut files, "generate/angular/page.ts.hbs", cat(kebab.as_str(), ".component.ts"));
        add_file(&mut files, "generate/angular/page.html.hbs", cat(kebab.as_str(), ".component.html"));
        add_file(&mut files, "generate/angular/page.scss.hbs", cat(kebab.as_str(), ".component.scss"));
    }
    assert(files_view(files@) =~= page_files(framework@, pascal@, kebab@));
    GeneratePlan { pascal, kebab, out_dir, files }
}

impl GeneratePlan {
    /// The text fields the plan's templates are rendered with: `name` (the Pascal name), then,
    /// for a component or page, `selector`, then `file_name` (both the kebab name).
    pub fn fields(&self, with_selector: bool) -> (r: Vec<(String, String)>)
        ensures
            r@.map_values(|p: (String, String)| (p.0@, p.1@)) == seq![("name"@, self.pascal@)] + (if with_selector {
                seq![("selector"@, self.kebab@)]
            } else {
                Seq::empty()
            }) + seq![("file_name"@, self.kebab@)],
    {
        let mut r: Vec<(String, String)> = Vec::new();
        r.push((owned("name"), self.pascal.clone()));
        if with_selector {
            r.push((owned("selector"), self.kebab.clone()));
        }
        r.push((owned("file_name"), self.kebab.clone()));
        assert(r@.map_values(|p: (String, String)| (p.0@, p.1@)) =~= seq![("name"@, self.pascal@)] + (if with_selector {
            seq![("selector"@, self.kebab@)]
        } else {
            Seq::empty()
        }) + seq![("file_name"@, self.kebab@)]);
        r
    }
}

/// The route to add for an Angular page: lazy-loads the page's component
/// file and picks `<Pascal>PageComponent` out of it.
pub fn angular_route_hint(kebab: &str, pascal: &str) -> (r: String)
    ensures
        r@ == "    { path: '"@ + kebab@ + "', loadComponent: () => import('./pages/"@ + kebab@ + "/"@
            + kebab@ + ".component').then(m => m."@ + pascal@ + "PageComponent) }"@,
{
    let a = cat3("    { path: '", kebab, "', loadComponent: () => import('./pages/");
    let b = cat3(a.as_str(), kebab, "/");
    let c = cat3(b.as_str(), kebab, ".component').then(m => m.");
    cat3(c.as_str(), pascal, "PageComponent) }")
}

/// Why `generate service` refuses a project whose framework is not Angular.
pub fn service_refusal(detected: &str, pascal: &str) -> (r: String)
    ensures
        r@ == "generate service is for Angular projects (detected: "@ + detected@
            + "). For React, create a custom hook (use"@ + pascal@
            + "); for Vue, create a composable (use"@ + pascal@ + ")."@,
{
    let a = cat3("generate service is for Angular projects (detected: ", detected, "). For React, create a custom hook (use");
    let b = cat3(a.as_str(), pascal, "); for Vue, create a composable (use");
    cat3(b.as_str(), pascal, ").")
}

/// The Angular service `name`: one file, `<kebab>.service.ts`, in `path` or
/// `src/app/services`; `None` when the project's framework is not Angular.
pub fn service_plan(name: &str, framework: &str, path: Option<&str>) -> (r: Option<GeneratePlan>)
    ensures
        r is Some <==> framework@ == "angular"@,
        r matches Some(p) ==> p.pascal@ == pascal_case(name@) && p.kebab@ == kebab_case(
            pascal_case(name@),
        ) && p.out_dir@ == (match path {
            Some(d) => d@,
            None => "src/app/services"@,
        }) && files_view(p.files@) == seq![
            ("generate/angular/service.ts.hbs"@, p.kebab@ + ".service.ts"@),
        ],
{
    if !str_equal(framework, "angular") {
        return None;
    }
    let pascal = to_pascal_case(name);
    let kebab = to_kebab_case(pascal.as_str());
    let out_dir = match path {
        Some(p) => owned(p),
        None => owned("src/app/services"),
    };
    let mut files: Vec<(&'static str, String)> = Vec::new();
    add_file(&mut files, "generate/angular/service.ts.hbs", cat(kebab.as_str(), ".service.ts"));
    assert(files_view(files@) =~= seq![("generate/angular/service.ts.hbs"@, kebab@ + ".service.ts"@)]);
    Some(GeneratePlan { pascal, kebab, out_dir, files })
}


// ── Laws ─────────────────────────────────────────────────────────────────────

/// `rel` is a relative name: it does not start with `/`.
pub open spec fn relative(rel: Seq<char>) -> bool {
    !(rel.len() > 0 && rel[0] == '/')
}

proof fn lemma_join_under(base: Seq<char>, rel: Seq<char>)
    requires
        base.len() > 0,
        base.last() != '/',
        relative(rel),
    ensures
        join_spec(base, rel) == base + "/"@ + rel,
{
}

/// Without `--path`, a React or Vue component goes to `src/components/<PascalName>`, and any
/// other framework's (Angular's) to `src/app/components/<kebab-name>`.
pub proof fn law_component_default_dir(framework: Seq<char>, pascal: Seq<char>, kebab: Seq<char>)
    requires
        relative(pascal),
        relative(kebab),
    ensures
        (framework == "react"@ || framework == "vue"@) ==> component_dir(framework, None, pascal, kebab)
            == "src/components/"@ + pascal,
        !(framework == "react"@ || framework == "vue"@) ==> component_dir(framework, None, pascal, kebab)
            == "src/app/components/"@ + kebab,
{
    reveal_strlit("src/components");
    reveal_strlit("src/components/");
    reveal_strlit("src/app/components");
    reveal_strlit("src/app/components/");
    reveal_strlit("/");
    lemma_join_under("src/components"@, pascal);
    lemma_join_under("src/app/components"@, kebab);
    assert("src/components"@ + "/"@ =~= "src/components/"@);
    assert("src/app/components"@ + "/"@ =~= "src/app/components/"@);
}

/// Without `--path`, an Angular page goes to `src/app/pages/<kebab-name>`, and any other
/// framework's to `src/pages/<PascalName>`, the name its page files start with.
pub proof fn law_page_default_dir(framework: Seq<char>, pascal: Seq<char>, kebab: Seq<char>)
    requires
        relative(pascal),
        relative(kebab),
    ensures
        framework == "angular"@ ==> page_dir(framework, None, pascal, kebab) == "src/app/pages/"@ + kebab,
        framework != "angular"@ ==> page_dir(framework, None, pascal, kebab) == "src/pages/"@ + pascal,
        framework == "react"@ ==> page_files(framework, pascal, kebab)[0].1 == pascal + "Page.tsx"@,
        framework == "vue"@ ==> page_files(framework, pascal, kebab)[0].1 == pascal + "Page.vue"@,
{
    reveal_strlit("react");
    reveal_strlit("vue");
    reveal_strlit("src/pages");
    reveal_strlit("src/pages/");
    reveal_strlit("src/app/pages");
    reveal_strlit("src/app/pages/");
    reveal_strlit("/");
    lemma_join_under("src/pages"@, pascal);
    lemma_join_under("src/app/pages"@, kebab);
    assert("src/pages"@ + "/"@ =~= "src/pages/"@);
    assert("vue"@[0] != "react"@[0]);
    assert("src/app/pages"@ + "/"@ =~= "src/app/pages/"@);
}

/// With `--path p`, a component or page goes to `p/<PascalName>`, whatever the framework.
pub proof fn law_given_path_takes_pascal_name(
    framework: Seq<char>,
    p: Seq<char>,
    pascal: Seq<char>,
    kebab: Seq<char>,
)
    requires
        p.len() > 0,
        p.last() != '/',
        relative(pascal),
    ensures
        component_dir(framework, Some(p), pascal, kebab) == p + "/"@ + pascal,
        page_dir(framework, Some(p), pascal, kebab) == p + "/"@ + pascal,
{
    lemma_join_under(p, pascal);
}

/// The generated files carry the artifact's name: React and Vue components are
/// `<Pascal>.tsx` / `<Pascal>.vue` with `<Pascal>.scss` and an `index.ts`, pages
/// `<Pascal>Page.<ext>` with `<Pascal>Page.scss` and an `index.ts`; Angular's (any other
/// framework's) are `<kebab>.component.ts`, `.html` and `.scss`.
pub proof fn law_generated_files_are_named_after_the_artifact(
    framework: Seq<char>,
    pascal: Seq<char>,
    kebab: Seq<char>,
)
    ensures
        ({
            let c = component_files(framework, pascal, kebab);
            let p = page_files(framework, pascal, kebab);
            &&& c.len() == 3
            &&& p.len() == 3
            &&& framework == "react"@ ==> c[0].1 == pascal + ".tsx"@ && c[1].1 == pascal + ".scss"@ && c[2].1
                == "index.ts"@ && p[0].1 == pascal + "Page.tsx"@ && p[1].1 == pascal + "Page.scss"@ && p[2].1
                == "index.ts"@
            &&& framework == "vue"@ ==> c[0].1 == pascal + ".vue"@ && c[1].1 == pascal + ".scss"@ && c[2].1
                == "index.ts"@ && p[0].1 == pascal + "Page.vue"@ && p[1].1 == pascal + "Page.scss"@ && p[2].1
                == "index.ts"@
            &&& !(framework == "react"@ || framework == "vue"@) ==> c[0].1 == kebab + ".component.ts"@ && c[1].1
                == kebab + ".component.html"@ && c[2].1 == kebab + ".component.scss"@ && p[0].1 == kebab
                + ".component.ts"@ && p[1].1 == kebab + ".component.html"@ && p[2].1 == kebab + ".component.scss"@
        }),
{
    reveal_strlit("react");
    reveal_strlit("vue");
    assert("vue"@[0] != "react"@[0]);
}

} // verus!
