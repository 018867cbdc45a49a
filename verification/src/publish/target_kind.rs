//! The closed set of things `m2s2 publish` knows how to publish to — used for both the
//! frontmatter `publish:` list and the `--to` flag.

use crate::types::{eq_ignore_ascii_case, eq_ignore_case, lemma_differ_at};
use vstd::prelude::*;

verus! {

#[derive(Clone, Copy, Debug, PartialEq, Eq, Structural)]
pub enum TargetKind {
    Devto,
    Hashnode,
    Platform,
}

impl TargetKind {
    pub open spec fn name_of(self) -> Seq<char> {
        match self {
            TargetKind::Devto => "devto"@,
            TargetKind::Hashnode => "hashnode"@,
            TargetKind::Platform => "platform"@,
        }
    }

    /// The lowercase name (what the kind displays as, and how frontmatter spells it).
    pub fn name(&self) -> (r: &'static str)
        ensures
            r@ == self.name_of(),
    {
        match self {
            TargetKind::Devto => "devto",
            TargetKind::Hashnode => "hashnode",
            TargetKind::Platform => "platform",
        }
    }

    pub open spec fn parse_spec(s: Seq<char>) -> Option<TargetKind> {
        if eq_ignore_case(s, "devto"@) {
            Some(TargetKind::Devto)
        } else if eq_ignore_case(s, "hashnode"@) {
            Some(TargetKind::Hashnode)
        } else if eq_ignore_case(s, "platform"@) {
            Some(TargetKind::Platform)
        } else {
            None
        }
    }

    /// The kind whose name equals `s` ignoring ASCII case.
    pub fn parse(s: &str) -> (r: Option<TargetKind>)
        ensures
            r == TargetKind::parse_spec(s@),
    {
        if eq_ignore_ascii_case(s, "devto") {
            Some(TargetKind::Devto)
        } else if eq_ignore_ascii_case(s, "hashnode") {
            Some(TargetKind::Hashnode)
        } else if eq_ignore_ascii_case(s, "platform") {
            Some(TargetKind::Platform)
        } else {
            None
        }
    }
}

/// Every target name parses back to its kind.
pub proof fn law_target_names_parse_back(k: TargetKind)
    ensures
        TargetKind::parse_spec(k.name_of()) == Some(k),
{
    reveal_strlit("devto");
    reveal_strlit("hashnode");
    reveal_strlit("platform");
    if k == TargetKind::Platform {
        lemma_differ_at("platform"@, "hashnode"@, 0);
    }
}

} // verus!
