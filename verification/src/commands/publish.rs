//! `m2s2 publish`: the command-line shape and the overall outcome.

use crate::publish::target_kind::TargetKind;
use crate::text::{cat, owned};
use vstd::prelude::*;

verus! {

pub struct PublishArgs {
    /// Path to the Markdown article
    pub file: String,
    /// Comma-separated target list, overriding the frontmatter's `publish:` list
    pub to: Option<Vec<TargetKind>>,
    /// Update an existing post instead of creating a new one (target-dependent support)
    pub update: bool,
    /// Validate and build every target's request, then stop without publishing anything
    pub preflight_only: bool,
}

pub const SOME_TARGETS_FAILED: &'static str = "one or more targets failed to publish";

/// Publishing fails as a whole when any target failed; each target's own error has been
/// reported already.
pub fn publish_outcome(failed: usize) -> (r: Result<(), String>)
    ensures
        r is Ok <==> failed == 0,
        r matches Err(e) ==> e@ == SOME_TARGETS_FAILED@,
{
    if failed > 0 {
        return Err(owned(SOME_TARGETS_FAILED));
    }
    Ok(())
}

/// The line a prepared target is reported with when only preflight was asked for.
pub fn ready_line(kind: TargetKind) -> (r: String)
    ensures
        r@ == kind.name_of() + " — ready to publish"@,
{
    cat(kind.name(), " — ready to publish")
}

} // verus!
