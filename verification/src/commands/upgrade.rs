//! `m2s2 upgrade`: whether the latest release is newer than this build.

use crate::semver_text::{semver_less, semver_version_valid, ParsedVersion};
use crate::text::{cat, chars_of, string_of};
use vstd::prelude::*;

verus! {

pub const REPO: &'static str = "M2S2-Engineering-Group/m2s2-cli";

pub struct UpgradeArgs {
    /// Check for updates without installing
    pub check: bool,
}

/// `s.trim_start_matches('v')`.
pub open spec fn trim_v(s: Seq<char>) -> Seq<char>
    decreases s.len(),
{
    if s.len() > 0 && s[0] == 'v' {
        trim_v(s.drop_first())
    } else {
        s
    }
}

fn trim_leading_v(s: &str) -> (r: String)
    ensures
        r@ == trim_v(s@),
{
    let v = chars_of(s);
    let mut i: usize = 0;
    assert(v@.skip(0) =~= v@);
    while i < v.len() && v[i] == 'v'
        invariant
            i <= v.len(),
            v@ == s@,
            trim_v(s@) == trim_v(v@.skip(i as int)),
        decreases v.len() - i,
    {
        assert(v@.skip(i as int).drop_first() =~= v@.skip(i + 1));
        i = i + 1;
    }
    let mut out: Vec<char> = Vec::new();
    let mut k: usize = i;
    while k < v.len()
        invariant
            i <= k <= v.len(),
            out@ == v@.subrange(i as int, k as int),
        decreases v.len() - k,
    {
        out.push(v[k]);
        assert(out@ =~= v@.subrange(i as int, k + 1));
        k = k + 1;
    }
    assert(v@.subrange(i as int, v.len() as int) =~= v@.skip(i as int));
    string_of(&out)
}

/// Whether the release tagged `tag` (a leading `v` dropped) is newer than the running
/// version `current`; a tag that is not a version is an error.
pub fn release_is_newer(current: &str, tag: &str) -> (r: Result<bool, String>)
    requires
        semver_version_valid(current@),
    ensures
        semver_version_valid(trim_v(tag@)) <==> r is Ok,
        r matches Ok(newer) ==> newer == semver_less(current@, trim_v(tag@)),
        r matches Err(e) ==> e@ == "unexpected release tag: "@ + tag@,
{
    let latest_text = trim_leading_v(tag);
    let current_version = match ParsedVersion::parse(current) {
        Some(v) => v,
        None => {
            return Err(cat("unexpected release tag: ", tag));
        },
    };
    match ParsedVersion::parse(latest_text.as_str()) {
        Some(latest) => Ok(current_version.less_than(&latest)),
        None => Err(cat("unexpected release tag: ", tag)),
    }
}

/// `release_is_newer` for a running version that may not be a version at all: `None` then
/// (the build's own version always is one).
pub fn check_release(current: &str, tag: &str) -> (r: Option<Result<bool, String>>)
    ensures
        r is Some <==> semver_version_valid(current@),
        r matches Some(x) ==> (semver_version_valid(trim_v(tag@)) <==> x is Ok),
        r matches Some(Ok(newer)) ==> newer == semver_less(current@, trim_v(tag@)),
        r matches Some(Err(e)) ==> e@ == "unexpected release tag: "@ + tag@,
{
    match ParsedVersion::parse(current) {
        Some(_) => Some(release_is_newer(current, tag)),
        None => None,
    }
}


/// Trimming a release tag drops exactly its leading `v`s: what is left is the rest of the tag,
/// and it does not start with `v`.
pub proof fn law_trim_v_drops_leading_vs(s: Seq<char>)
    ensures
        exists|k: int|
            0 <= k <= s.len() && trim_v(s) == #[trigger] s.skip(k) && forall|i: int| 0 <= i < k ==> s[i] == 'v',
        trim_v(s).len() == 0 || trim_v(s)[0] != 'v',
    decreases s.len(),
{
    if s.len() > 0 && s[0] == 'v' {
        law_trim_v_drops_leading_vs(s.drop_first());
        let k = choose|k: int|
            0 <= k <= s.drop_first().len() && trim_v(s.drop_first()) == #[trigger] s.drop_first().skip(k)
                && forall|i: int| 0 <= i < k ==> s.drop_first()[i] == 'v';
        assert(s.drop_first().skip(k) =~= s.skip(k + 1));
        assert forall|i: int| 0 <= i < k + 1 implies s[i] == 'v' by {
            if i > 0 {
                assert(s[i] == s.drop_first()[i - 1]);
            }
        }
    } else {
        assert(s.skip(0) =~= s);
    }
}

} // verus!
