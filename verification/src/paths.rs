//! Slash-separated relative paths, joined and split the way `std::path::Path` does on Unix.

use crate::text::{cat, cat3, chars_of, string_of};
use vstd::prelude::*;

verus! {

/// `Path::new(base).join(rel)`: an absolute `rel` replaces `base`; otherwise the two are
/// joined with one `/` (none added after an empty `base` or one that already ends in `/`).
pub open spec fn join_spec(base: Seq<char>, rel: Seq<char>) -> Seq<char> {
    if rel.len() > 0 && rel[0] == '/' {
        rel
    } else if base.len() == 0 {
        rel
    } else if base.last() == '/' {
        base + rel
    } else {
        base + "/"@ + rel
    }
}

pub fn join(base: &str, rel: &str) -> (r: String)
    ensures
        r@ == join_spec(base@, rel@),
{
    proof {
        reveal_strlit("/");
    }
    let b = chars_of(base);
    let rv = chars_of(rel);
    if rv.len() > 0 && rv[0] == '/' {
        string_of(&rv)
    } else if b.len() == 0 {
        string_of(&rv)
    } else if b[b.len() - 1] == '/' {
        cat(base, rel)
    } else {
        cat3(base, "/", rel)
    }
}

/// The index of the last `/` in `s` below `end`, if any.
pub open spec fn last_slash_before(s: Seq<char>, end: int) -> Option<int>
    decreases end,
{
    if end <= 0 {
        None
    } else if s[end - 1] == '/' {
        Some(end - 1)
    } else {
        last_slash_before(s, end - 1)
    }
}

/// The directory part of a relative file path: what precedes its last `/`, or nothing.
pub open spec fn dir_part(s: Seq<char>) -> Seq<char> {
    match last_slash_before(s, s.len() as int) {
        Some(i) => s.take(i),
        None => seq![],
    }
}

pub proof fn lemma_last_slash(s: Seq<char>, end: int)
    requires
        0 <= end <= s.len(),
    ensures
        match last_slash_before(s, end) {
            Some(i) => 0 <= i < end && s[i] == '/' && forall|j: int| i < j < end ==> s[j] != '/',
            None => forall|j: int| 0 <= j < end ==> s[j] != '/',
        },
    decreases end,
{
    if end > 0 && s[end - 1] != '/' {
        lemma_last_slash(s, end - 1);
    }
}

/// The directory part of a relative file path (`Path::parent` for a path without `..`, `.` or
/// repeated separators).
pub fn dir_of(s: &str) -> (r: String)
    ensures
        r@ == dir_part(s@),
{
    let v = chars_of(s);
    let mut i: usize = v.len();
    while i > 0 && v[i - 1] != '/'
        invariant
            i <= v.len(),
            v@ == s@,
            last_slash_before(s@, s@.len() as int) == last_slash_before(s@, i as int),
        decreases i,
    {
        i = i - 1;
    }
    if i == 0 {
        return String::new();
    }
    let mut out: Vec<char> = Vec::new();
    let mut k: usize = 0;
    while k < i - 1
        invariant
            0 < i <= v.len(),
            k <= i - 1,
            out@ == v@.take(k as int),
        decreases i - 1 - k,
    {
        out.push(v[k]);
        assert(out@ =~= v@.take(k + 1));
        k = k + 1;
    }
    string_of(&out)
}


/// The directory part of a file path is everything before its last `/`, and the path has no
/// `/` after it; a path without any `/` has an empty directory part.
pub proof fn law_dir_part_is_before_the_last_slash(s: Seq<char>)
    ensures
        (forall|j: int| 0 <= j < s.len() ==> s[j] != '/') ==> dir_part(s) == Seq::<char>::empty(),
        (exists|j: int| 0 <= j < s.len() && s[j] == '/') ==> exists|i: int|
            0 <= i < s.len() && s[i] == '/' && dir_part(s) == #[trigger] s.take(i) && forall|j: int|
                i < j < s.len() ==> s[j] != '/',
{
    lemma_last_slash(s, s.len() as int);
    if let Some(i) = last_slash_before(s, s.len() as int) {
        assert(dir_part(s) == s.take(i));
    }
}

} // verus!
