//! The project's `.m2s2.json`, and finding out which frontend framework a project uses.

use crate::publish::reply::{found_view, json_at, json_lookup};
use crate::text::owned;
use vstd::prelude::*;

verus! {

/// What `m2s2 new` records about a project in `.m2s2.json`.
pub struct M2S2Config {
    pub framework: Option<String>,
    pub api_framework: Option<String>,
    pub project_type: Option<String>,
    pub runtime: Option<String>,
    pub auth: bool,
    pub billing: bool,
}

impl Default for M2S2Config {
    fn default() -> (r: Self)
        ensures
            r.framework is None,
            r.api_framework is None,
            r.project_type is None,
            r.runtime is None,
            !r.auth,
            !r.billing,
    {
        M2S2Config {
            framework: None,
            api_framework: None,
            project_type: None,
            runtime: None,
            auth: false,
            billing: false,
        }
    }
}

pub const CONFIG_FILE: &'static str = ".m2s2.json";

pub const UNDETECTED_FRAMEWORK: &'static str = "could not detect framework — run from your project root or pass --framework";

/// The framework named by an explicit flag, else the detected one; with neither the
/// framework cannot be determined. Detection runs only when no flag was given.
pub fn resolve_framework<F: FnOnce() -> Option<String>>(explicit: Option<String>, detect: F) -> (r:
    Result<String, String>)
    requires
        explicit is None ==> call_requires(detect, ()),
    ensures
        match explicit {
            Some(f) => r == Ok::<String, String>(f),
            None => exists|d: Option<String>|
                #![trigger call_ensures(detect, (), d)]
                call_ensures(detect, (), d) && match d {
                    Some(f) => r == Ok::<String, String>(f),
                    None => r matches Err(e) && e@ == UNDETECTED_FRAMEWORK@,
                },
        },
{
    match explicit {
        Some(f) => Ok(f),
        None => {
            let d = detect();
            match d {
                Some(f) => Ok(f),
                None => Err(owned(UNDETECTED_FRAMEWORK)),
            }
        },
    }
}

/// The framework an m2s2 library among `package.json`'s dependencies gives away: React,
/// Angular and Vue libraries are looked for in that order. Not JSON, or no such dependency,
/// gives nothing.
pub open spec fn framework_in_package_json(text: Seq<char>) -> Option<Seq<char>> {
    if json_at(text, "/dependencies/@m2s2~1react-lib"@) matches Some(Some(_)) {
        Some("react"@)
    } else if json_at(text, "/dependencies/@m2s2~1ng-lib"@) matches Some(Some(_)) {
        Some("angular"@)
    } else if json_at(text, "/dependencies/@m2s2~1vue-lib"@) matches Some(Some(_)) {
        Some("vue"@)
    } else {
        None
    }
}

fn has_dependency(text: &str, pointer: &str) -> (r: bool)
    ensures
        r == (json_at(text@, pointer@) matches Some(Some(_))),
{
    match json_lookup(text, pointer) {
        Some(Some(_)) => true,
        _ => false,
    }
}

/// The framework a `package.json` text depends on through its m2s2 library.
pub fn framework_from_package_json(text: &str) -> (r: Option<String>)
    ensures
        match r {
            Some(f) => framework_in_package_json(text@) == Some(f@),
            None => framework_in_package_json(text@) is None,
        },
{
    if has_dependency(text, "/dependencies/@m2s2~1react-lib") {
        Some(owned("react"))
    } else if has_dependency(text, "/dependencies/@m2s2~1ng-lib") {
        Some(owned("angular"))
    } else if has_dependency(text, "/dependencies/@m2s2~1vue-lib") {
        Some(owned("vue"))
    } else {
        None
    }
}

/// The framework recorded in `.m2s2.json` when it records one, else the one `package.json`
/// (read only then) gives away.
pub fn detect_framework<F: FnOnce() -> Option<String>>(
    config: Option<M2S2Config>,
    read_package_json: F,
) -> (r: Option<String>)
    requires
        call_requires(read_package_json, ()),
    ensures
        match config {
            Some(c) if c.framework is Some => r == c.framework,
            _ => exists|p: Option<String>|
                #![trigger call_ensures(read_package_json, (), p)]
                call_ensures(read_package_json, (), p) && match p {
                    Some(text) => match r {
                        Some(f) => framework_in_package_json(text@) == Some(f@),
                        None => framework_in_package_json(text@) is None,
                    },
                    None => r is None,
                },
        },
{
    match config {
        Some(c) => {
            if c.framework.is_some() {
                return c.framework;
            }
        },
        None => {},
    }
    let p = read_package_json();
    match p {
        Some(text) => framework_from_package_json(text.as_str()),
        None => None,
    }
}

} // verus!
