//! Shared structured-check report shape: each check has a stable machine code, a status and a
//! human message. `content validate`/`inspect` build one of these.

use crate::text::owned;
use vstd::prelude::*;

verus! {

#[derive(Debug, Clone, Copy, PartialEq, Eq, Structural)]
pub enum CheckStatus {
    Passed,
    /// No `content` check produces this yet — reserved for preflight reports that need a
    /// non-fatal finding.
    Warning,
    Failed,
}

#[derive(Debug)]
pub struct Check {
    /// Stable machine identifier, e.g. `article.canonical_url.https`. Human messages may evolve;
    /// automation should depend on this, not on `message`.
    pub code: &'static str,
    pub status: CheckStatus,
    pub message: String,
}

/// What a check says: its code, status and message.
pub struct CheckView {
    pub code: Seq<char>,
    pub status: CheckStatus,
    pub message: Seq<char>,
}

impl View for Check {
    type V = CheckView;

    open spec fn view(&self) -> CheckView {
        CheckView { code: self.code@, status: self.status, message: self.message@ }
    }
}

#[derive(Debug)]
pub struct OutputReport {
    pub checks: Vec<Check>,
}

impl View for OutputReport {
    type V = Seq<CheckView>;

    open spec fn view(&self) -> Seq<CheckView> {
        self.checks@.map_values(|c: Check| c@)
    }
}

#[derive(Debug, Clone, Copy, PartialEq, Eq, Structural)]
pub enum OutputFormat {
    Human,
    Json,
}

/// Whether none of `checks` failed.
pub open spec fn none_failed(checks: Seq<CheckView>) -> bool {
    forall|i: int| 0 <= i < checks.len() ==> checks[i].status != CheckStatus::Failed
}

/// The check a `push(code, status, message)` appends.
pub open spec fn check_of(code: Seq<char>, status: CheckStatus, message: Seq<char>) -> CheckView {
    CheckView { code, status, message }
}

impl OutputReport {
    /// An empty report.
    pub fn new() -> (r: OutputReport)
        ensures
            r@ == Seq::<CheckView>::empty(),
    {
        let r = OutputReport { checks: Vec::new() };
        assert(r@ =~= Seq::<CheckView>::empty());
        r
    }

    /// Appends one check.
    pub fn push(&mut self, code: &'static str, status: CheckStatus, message: &str)
        ensures
            final(self)@ == old(self)@.push(check_of(code@, status, message@)),
    {
        let ghost before = self.checks@;
        self.checks.push(Check { code, status, message: owned(message) });
        assert(self@ =~= before.map_values(|c: Check| c@).push(check_of(code@, status, message@)));
    }

    /// `false` if any check `Failed` — the caller's signal to treat this as a nonzero-exit
    /// failure, regardless of how many `Warning`s are mixed in.
    pub fn passed(&self) -> (r: bool)
        ensures
            r == none_failed(self@),
    {
        let mut i: usize = 0;
        while i < self.checks.len()
            invariant
                i <= self.checks.len(),
                forall|k: int| 0 <= k < i ==> self@[k].status != CheckStatus::Failed,
            decreases self.checks.len() - i,
        {
            if self.checks[i].status == CheckStatus::Failed {
                assert(self@[i as int].status == CheckStatus::Failed);
                return false;
            }
            i = i + 1;
        }
        true
    }
}

/// The mark a check's status is shown with in the human-readable report.
pub fn glyph(status: CheckStatus) -> (r: &'static str)
    ensures
        r@ == (match status {
            CheckStatus::Passed => "✓"@,
            CheckStatus::Warning => "⚠"@,
            CheckStatus::Failed => "✗"@,
        }),
{
    match status {
        CheckStatus::Passed => "✓",
        CheckStatus::Warning => "⚠",
        CheckStatus::Failed => "✗",
    }
}

/// A report passes after one more check exactly when it passed before and the new check did
/// not fail: a failure anywhere fails the report, and warnings never do.
pub proof fn law_passed_after_push(checks: Seq<CheckView>, c: CheckView)
    ensures
        none_failed(checks.push(c)) == (none_failed(checks) && c.status != CheckStatus::Failed),
{
    if none_failed(checks) && c.status != CheckStatus::Failed {
        assert forall|i: int| 0 <= i < checks.push(c).len() implies checks.push(c)[i].status
            != CheckStatus::Failed by {
            if i < checks.len() {
                assert(checks.push(c)[i] == checks[i]);
            }
        }
    }
    if none_failed(checks.push(c)) {
        assert(checks.push(c)[checks.len() as int] == c);
        assert forall|i: int| 0 <= i < checks.len() implies checks[i].status
            != CheckStatus::Failed by {
            assert(checks.push(c)[i] == checks[i]);
        }
    }
}

/// An empty report passes.
pub proof fn law_empty_report_passes()
    ensures
        none_failed(Seq::<CheckView>::empty()),
{
}

} // verus!
