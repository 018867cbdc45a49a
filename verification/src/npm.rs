//! npm package bookkeeping: template keys for package names, plain versions out of npm ranges,
//! npm ranges as semver requirements, and the version table built from an m2s2 library's
//! declared dependencies.

use crate::markdown::views;
use crate::version_map::VersionMap;
use crate::semver_text::{
    semver_less, semver_matches, semver_req_valid, semver_version_valid, ParsedReq, ParsedVersion,
};
use crate::text::{
    char_is_whitespace, chars_of, extend_chars, is_ascii_digit_char, is_space, owned, string_of,
};
use vstd::prelude::*;

verus! {

// ── Template keys ────────────────────────────────────────────────────────────

/// The characters a package name may hold that a template variable name may not.
pub open spec fn is_key_punct(c: char) -> bool {
    c == '@' || c == '/' || c == '.' || c == '-'
}

/// `package` with every `@`, `/`, `.` and `-` replaced by `_`.
pub open spec fn key_of(package: Seq<char>) -> Seq<char> {
    package.map_values(|c: char| if is_key_punct(c) { '_' } else { c })
}

/// The template variable name for a package, e.g. `@m2s2/react-lib` → `_m2s2_react_lib`.
pub fn sanitize_key(package: &str) -> (r: String)
    ensures
        r@ == key_of(package@),
{
    let v = chars_of(package);
    let mut out: Vec<char> = Vec::new();
    let mut i: usize = 0;
    while i < v.len()
        invariant
            v@ == package@,
            i <= v.len(),
            out@ == key_of(v@.take(i as int)),
        decreases v.len() - i,
    {
        let c = v[i];
        if c == '@' || c == '/' || c == '.' || c == '-' {
            out.push('_');
        } else {
            out.push(c);
        }
        i = i + 1;
        assert(out@ =~= key_of(v@.take(i as int)));
    }
    assert(v@.take(v.len() as int) =~= v@);
    string_of(&out)
}

// ── Versions out of ranges ───────────────────────────────────────────────────

/// `s` without its leading characters that are not ASCII digits.
pub open spec fn skip_non_digits(s: Seq<char>) -> Seq<char>
    decreases s.len(),
{
    if s.len() > 0 && !is_ascii_digit_char(s[0]) {
        skip_non_digits(s.drop_first())
    } else {
        s
    }
}

/// The characters of `s` before its first whitespace character.
pub open spec fn until_space(s: Seq<char>) -> Seq<char>
    decreases s.len(),
{
    if s.len() == 0 || is_space(s[0]) {
        seq![]
    } else {
        seq![s[0]] + until_space(s.drop_first())
    }
}

/// The plain version inside an npm range: range operators (anything before the first digit)
/// stripped, cut at the first whitespace, and kept only if it contains a `.`.
pub open spec fn version_in_range(range: Seq<char>) -> Option<Seq<char>> {
    let v = until_space(skip_non_digits(range));
    if v.contains('.') {
        Some(v)
    } else {
        None
    }
}

/// Strip range operators (`^`, `~`, `>=`, …) to get a plain semver string.
pub fn extract_version(range: &str) -> (r: Option<String>)
    ensures
        r matches Some(v) ==> version_in_range(range@) == Some(v@),
        r is None ==> version_in_range(range@) is None,
{
    let v = chars_of(range);
    let mut start: usize = 0;
    assert(v@.skip(0) =~= v@);
    while start < v.len() && !('0' <= v[start] && v[start] <= '9')
        invariant
            v@ == range@,
            start <= v.len(),
            skip_non_digits(range@) == skip_non_digits(v@.skip(start as int)),
        decreases v.len() - start,
    {
        assert(v@.skip(start as int).drop_first() =~= v@.skip(start + 1));
        start = start + 1;
    }
    let ghost rest = v@.skip(start as int);
    assert(skip_non_digits(rest) == rest);
    let mut end: usize = start;
    while end < v.len() && !char_is_whitespace(v[end])
        invariant
            start <= end <= v.len(),
            until_space(rest) == v@.subrange(start as int, end as int) + until_space(
                v@.skip(end as int),
            ),
        decreases v.len() - end,
    {
        assert(v@.skip(end as int).drop_first() =~= v@.skip(end + 1));
        assert(v@.subrange(start as int, end + 1) =~= v@.subrange(start as int, end as int) + seq![
            v@[end as int],
        ]);
        end = end + 1;
    }
    assert(until_space(v@.skip(end as int)) =~= Seq::<char>::empty());
    let mut out: Vec<char> = Vec::new();
    let mut has_dot = false;
    let mut k: usize = start;
    while k < end
        invariant
            start <= k <= end <= v.len(),
            out@ == v@.subrange(start as int, k as int),
            has_dot == (exists|j: int| start <= j < k && v@[j] == '.'),
        decreases end - k,
    {
        if v[k] == '.' {
            has_dot = true;
        }
        out.push(v[k]);
        assert(out@ =~= v@.subrange(start as int, k + 1));
        k = k + 1;
    }
    proof {
        if has_dot {
            let j = choose|j: int| start <= j < end && v@[j] == '.';
            assert(out@[j - start] == '.');
        }
        if out@.contains('.') {
            let j = choose|j: int| 0 <= j < out@.len() && out@[j] == '.';
            assert(v@[start + j] == '.');
        }
    }
    if has_dot {
        Some(string_of(&out))
    } else {
        None
    }
}

// ── npm ranges as semver requirements ────────────────────────────────────────

/// Words finished so far and the word being read, after reading `s`.
pub open spec fn word_scan(s: Seq<char>) -> (Seq<Seq<char>>, Seq<char>)
    decreases s.len(),
{
    if s.len() == 0 {
        (seq![], seq![])
    } else {
        let (done, cur) = word_scan(s.drop_last());
        if is_space(s.last()) {
            if cur.len() > 0 {
                (done.push(cur), seq![])
            } else {
                (done, seq![])
            }
        } else {
            (done, cur.push(s.last()))
        }
    }
}

/// `str::split_whitespace`: the maximal runs of non-whitespace characters, in order.
pub open spec fn words_of(s: Seq<char>) -> Seq<Seq<char>> {
    let (done, cur) = word_scan(s);
    if cur.len() > 0 {
        done.push(cur)
    } else {
        done
    }
}

/// `s.split_whitespace()`, each word as a vector of characters.
pub fn words_vec(s: &Vec<char>) -> (r: Vec<Vec<char>>)
    ensures
        views(r@) == words_of(s@),
{
    let mut done: Vec<Vec<char>> = Vec::new();
    let mut cur: Vec<char> = Vec::new();
    let mut i: usize = 0;
    while i < s.len()
        invariant
            i <= s.len(),
            (views(done@), cur@) == word_scan(s@.take(i as int)),
        decreases s.len() - i,
    {
        proof {
            assert(s@.take(i + 1).drop_last() =~= s@.take(i as int));
        }
        let c = s[i];
        if char_is_whitespace(c) {
            if cur.len() > 0 {
                let ghost before = done@;
                done.push(cur);
                assert(views(done@) =~= views(before).push(cur@));
            }
            cur = Vec::new();
        } else {
            cur.push(c);
        }
        i = i + 1;
    }
    assert(s@.take(s.len() as int) =~= s@);
    if cur.len() > 0 {
        let ghost before = done@;
        done.push(cur);
        assert(views(done@) =~= views(before).push(cur@));
    }
    done
}

/// The comparison operators npm lets stand apart from their version.
pub open spec fn is_operator(t: Seq<char>) -> bool {
    t == seq!['<'] || t == seq!['<', '='] || t == seq!['>'] || t == seq!['>', '='] || t == seq![
        '=',
    ] || t == seq!['^'] || t == seq!['~']
}

/// The comparators of a tokenized npm range: an operator token glued to the token after it,
/// any other token as it is; `None` if an operator is the last token.
pub open spec fn comparators(ts: Seq<Seq<char>>) -> Option<Seq<Seq<char>>>
    decreases ts.len(),
{
    if ts.len() == 0 {
        Some(seq![])
    } else if is_operator(ts[0]) {
        if ts.len() < 2 {
            None
        } else {
            match comparators(ts.skip(2)) {
                Some(rest) => Some(seq![ts[0] + ts[1]] + rest),
                None => None,
            }
        }
    } else {
        match comparators(ts.drop_first()) {
            Some(rest) => Some(seq![ts[0]] + rest),
            None => None,
        }
    }
}

/// `parts.join(", ")`.
pub open spec fn join_comma(parts: Seq<Seq<char>>) -> Seq<char>
    decreases parts.len(),
{
    if parts.len() == 0 {
        seq![]
    } else if parts.len() == 1 {
        parts[0]
    } else {
        join_comma(parts.drop_last()) + seq![',', ' '] + parts.last()
    }
}

/// The semver requirement text for an npm range: its comparators joined with `, `.
pub open spec fn range_req_text(range: Seq<char>) -> Option<Seq<char>> {
    match comparators(words_of(range)) {
        Some(parts) => Some(join_comma(parts)),
        None => None,
    }
}

fn is_operator_exec(t: &Vec<char>) -> (r: bool)
    ensures
        r == is_operator(t@),
{
    let r = if t.len() == 1 {
        t[0] == '<' || t[0] == '>' || t[0] == '=' || t[0] == '^' || t[0] == '~'
    } else if t.len() == 2 {
        (t[0] == '<' || t[0] == '>') && t[1] == '='
    } else {
        false
    };
    proof {
        if t@.len() == 1 {
            if t@[0] == '<' {
                assert(t@ =~= seq!['<']);
            }
            if t@[0] == '>' {
                assert(t@ =~= seq!['>']);
            }
            if t@[0] == '=' {
                assert(t@ =~= seq!['=']);
            }
            if t@[0] == '^' {
                assert(t@ =~= seq!['^']);
            }
            if t@[0] == '~' {
                assert(t@ =~= seq!['~']);
            }
        }
        if t@.len() == 2 && t@[1] == '=' {
            if t@[0] == '<' {
                assert(t@ =~= seq!['<', '=']);
            }
            if t@[0] == '>' {
                assert(t@ =~= seq!['>', '=']);
            }
        }
    }
    r
}

proof fn lemma_join_comma_push(parts: Seq<Seq<char>>, p: Seq<char>)
    ensures
        join_comma(parts.push(p)) == (if parts.len() == 0 {
            p
        } else {
            join_comma(parts) + seq![',', ' '] + p
        }),
{
    assert(parts.push(p).drop_last() =~= parts);
}

/// The semver requirement text of an npm range (space-separated comparators, e.g.
/// `">=5.9 <7.0"` or `">= 22.0.0 < 23.0.0"`), comparators joined with commas as `semver`
/// expects.
pub fn range_requirement_text(range: &str) -> (r: Option<String>)
    ensures
        r matches Some(t) ==> range_req_text(range@) == Some(t@),
        r is None ==> range_req_text(range@) is None,
{
    let v = chars_of(range);
    let tokens = words_vec(&v);
    let ghost ts = views(tokens@);
    let mut out: Vec<char> = Vec::new();
    let ghost mut parts: Seq<Seq<char>> = seq![];
    let mut any = false;
    let mut i: usize = 0;
    proof {
        assert(ts.skip(0) =~= ts);
        if comparators(ts) is Some {
            assert(Seq::<Seq<char>>::empty() + comparators(ts).unwrap() =~= comparators(ts).unwrap());
        }
    }
    while i < tokens.len()
        invariant
            ts == views(tokens@),
            ts == words_of(range@),
            i <= tokens.len(),
            out@ == join_comma(parts),
            any == (parts.len() > 0),
            comparators(ts) == match comparators(ts.skip(i as int)) {
                Some(rest) => Some(parts + rest),
                None => None::<Seq<Seq<char>>>,
            },
        decreases tokens.len() - i,
    {
        let t = &tokens[i];
        assert(ts[i as int] == t@);
        assert(ts.skip(i as int)[0] == t@);
        if is_operator_exec(t) {
            if i + 1 >= tokens.len() {
                return None;
            }
            assert(ts.skip(i as int)[1] == tokens@[i + 1]@);
            assert(ts.skip(i as int).skip(2) =~= ts.skip(i + 2));
            let ghost piece = t@ + tokens@[i + 1]@;
            proof {
                lemma_join_comma_push(parts, piece);
            }
            if any {
                out.push(',');
                out.push(' ');
            }
            any = true;
            extend_chars(&mut out, t);
            extend_chars(&mut out, &tokens[i + 1]);
            proof {
                assert(seq![piece] + comparators(ts.skip(i + 2)).unwrap_or(seq![]) =~= seq![piece]
                    + comparators(ts.skip(i + 2)).unwrap_or(seq![]));
                if comparators(ts.skip(i + 2)) is Some {
                    let rest = comparators(ts.skip(i + 2)).unwrap();
                    assert(parts + (seq![piece] + rest) =~= parts.push(piece) + rest);
                }
                parts = parts.push(piece);
            }
            i = i + 2;
        } else {
            assert(ts.skip(i as int).drop_first() =~= ts.skip(i + 1));
            proof {
                lemma_join_comma_push(parts, t@);
            }
            if any {
                out.push(',');
                out.push(' ');
            }
            any = true;
            extend_chars(&mut out, t);
            proof {
                if comparators(ts.skip(i + 1)) is Some {
                    let rest = comparators(ts.skip(i + 1)).unwrap();
                    assert(parts + (seq![t@] + rest) =~= parts.push(t@) + rest);
                }
                parts = parts.push(t@);
            }
            i = i + 1;
        }
    }
    assert(ts.skip(i as int) =~= Seq::<Seq<char>>::empty());
    assert(parts + Seq::<Seq<char>>::empty() =~= parts);
    Some(string_of(&out))
}

/// Convert an npm-style range (space-separated comparators) into a semver requirement.
pub fn npm_range_to_req(range: &str) -> (r: Option<ParsedReq>)
    ensures
        r is Some <==> (range_req_text(range@) matches Some(t) && semver_req_valid(t)),
        r matches Some(q) ==> range_req_text(range@) == Some(q.source()),
{
    match range_requirement_text(range) {
        Some(text) => ParsedReq::parse(text.as_str()),
        None => None,
    }
}

/// Whether `version` satisfies `range`; `true` (fail open) if either side can't be parsed.
pub open spec fn satisfies(version: Seq<char>, range: Seq<char>) -> bool {
    match range_req_text(range) {
        Some(t) => if semver_version_valid(version) && semver_req_valid(t) {
            semver_matches(t, version)
        } else {
            true
        },
        None => true,
    }
}

/// Whether `version` satisfies the npm-style range `range`. Fails open (returns `true`) if
/// either side can't be parsed, so an unusual range never blocks scaffolding outright.
pub fn version_satisfies(version: &str, range: &str) -> (r: bool)
    ensures
        r == satisfies(version@, range@),
{
    match (ParsedVersion::parse(version), npm_range_to_req(range)) {
        (Some(v), Some(req)) => req.matches(&v),
        _ => true,
    }
}

// ── Versions declared by an m2s2 library ─────────────────────────────────────

/// A dependency an npm package declares: the package name and, when the declared range is a
/// JSON string, that range.
pub struct DeclaredDependency {
    pub package: String,
    pub range: Option<String>,
}

/// `m` after recording the plain version of one declared dependency under its template key,
/// unless that key already has a version or the range holds no plain version.
pub open spec fn add_declared(m: Map<Seq<char>, Seq<char>>, d: DeclaredDependency) -> Map<
    Seq<char>,
    Seq<char>,
> {
    match d.range {
        Some(r) => match version_in_range(r@) {
            Some(v) => if m.contains_key(key_of(d.package@)) {
                m
            } else {
                m.insert(key_of(d.package@), v)
            },
            None => m,
        },
        None => m,
    }
}

/// `m` after recording every dependency of `ds`, in order.
pub open spec fn add_all_declared(m: Map<Seq<char>, Seq<char>>, ds: Seq<DeclaredDependency>) -> Map<
    Seq<char>,
    Seq<char>,
>
    decreases ds.len(),
{
    if ds.len() == 0 {
        m
    } else {
        add_declared(add_all_declared(m, ds.drop_last()), ds.last())
    }
}

/// Every `@angular/*` package that must share one resolved version.
pub open spec fn angular_packages_spec() -> Seq<Seq<char>> {
    seq![
        "@angular/animations"@,
        "@angular/cdk"@,
        "@angular/common"@,
        "@angular/compiler"@,
        "@angular/compiler-cli"@,
        "@angular/core"@,
        "@angular/forms"@,
        "@angular/material"@,
        "@angular/platform-browser"@,
        "@angular/platform-browser-dynamic"@,
        "@angular/router"@,
        "@angular/build"@,
        "@angular/cli"@,
    ]
}

/// All `@angular/*` packages that must share the same resolved version.
pub fn angular_packages() -> (r: Vec<&'static str>)
    ensures
        r@.map_values(|p: &'static str| p@) == angular_packages_spec(),
{
    let r = vec![
        "@angular/animations",
        "@angular/cdk",
        "@angular/common",
        "@angular/compiler",
        "@angular/compiler-cli",
        "@angular/core",
        "@angular/forms",
        "@angular/material",
        "@angular/platform-browser",
        "@angular/platform-browser-dynamic",
        "@angular/router",
        "@angular/build",
        "@angular/cli",
    ];
    assert(r@.map_values(|p: &'static str| p@) =~= angular_packages_spec());
    r
}

/// The Angular version every `@angular/*` package shares: the first of `@angular/core`,
/// `@angular/build` and `@angular/cli` that has a version.
pub open spec fn angular_anchor(m: Map<Seq<char>, Seq<char>>) -> Option<Seq<char>> {
    if m.contains_key("_angular_core"@) {
        Some(m["_angular_core"@])
    } else if m.contains_key("_angular_build"@) {
        Some(m["_angular_build"@])
    } else if m.contains_key("_angular_cli"@) {
        Some(m["_angular_cli"@])
    } else {
        None
    }
}

/// `m` after giving every package of `pkgs` that has no version yet the version `v`.
pub open spec fn fill_missing(m: Map<Seq<char>, Seq<char>>, pkgs: Seq<Seq<char>>, v: Seq<char>) -> Map<
    Seq<char>,
    Seq<char>,
>
    decreases pkgs.len(),
{
    if pkgs.len() == 0 {
        m
    } else {
        let prev = fill_missing(m, pkgs.drop_last(), v);
        let k = key_of(pkgs.last());
        if prev.contains_key(k) {
            prev
        } else {
            prev.insert(k, v)
        }
    }
}

/// The versions an m2s2 library pins: its peer, regular and dev dependencies in that order
/// (the first plain version seen for a key wins), then every `@angular/*` package without a
/// version given the shared Angular version, if there is one.
pub open spec fn library_versions(
    peer: Seq<DeclaredDependency>,
    deps: Seq<DeclaredDependency>,
    dev: Seq<DeclaredDependency>,
) -> Map<Seq<char>, Seq<char>> {
    let m = add_all_declared(
        add_all_declared(add_all_declared(Map::empty(), peer), deps),
        dev,
    );
    match angular_anchor(m) {
        Some(av) => fill_missing(m, angular_packages_spec(), av),
        None => m,
    }
}

fn add_all(versions: &mut VersionMap, ds: &Vec<DeclaredDependency>)
    ensures
        final(versions)@ == add_all_declared(old(versions)@, ds@),
{
    let ghost start = versions@;
    let mut i: usize = 0;
    while i < ds.len()
        invariant
            i <= ds.len(),
            versions@ == add_all_declared(start, ds@.take(i as int)),
        decreases ds.len() - i,
    {
        proof {
            assert(ds@.take(i + 1).drop_last() =~= ds@.take(i as int));
        }
        let d = &ds[i];
        match &d.range {
            Some(r) => match extract_version(r.as_str()) {
                Some(v) => {
                    let key = sanitize_key(d.package.as_str());
                    versions.insert_if_absent(key, v);
                },
                None => {},
            },
            None => {},
        }
        i = i + 1;
    }
    assert(ds@.take(ds.len() as int) =~= ds@);
}

/// The version recorded for `key`, cloned.
fn lookup(versions: &VersionMap, key: &str) -> (r: Option<String>)
    ensures
        r matches Some(v) ==> versions@.contains_key(key@) && versions@[key@] == v@,
        r is None ==> !versions@.contains_key(key@),
{
    match versions.get(key) {
        Some(v) => Some(v.clone()),
        None => None,
    }
}

/// Resolves the versions pinned by an m2s2 library's declared peer, regular and dev
/// dependencies, filling in the shared version of every `@angular/*` package.
pub fn declared_versions(
    peer: &Vec<DeclaredDependency>,
    deps: &Vec<DeclaredDependency>,
    dev: &Vec<DeclaredDependency>,
) -> (r: VersionMap)
    ensures
        r@ == library_versions(peer@, deps@, dev@),
{
    let mut versions = VersionMap::new();
    add_all(&mut versions, peer);
    add_all(&mut versions, deps);
    add_all(&mut versions, dev);
    let anchor = match lookup(&versions, "_angular_core") {
        Some(v) => Some(v),
        None => match lookup(&versions, "_angular_build") {
            Some(v) => Some(v),
            None => lookup(&versions, "_angular_cli"),
        },
    };
    match anchor {
        Some(av) => {
            let pkgs = angular_packages();
            let ghost m0 = versions@;
            let ghost ps = pkgs@.map_values(|p: &'static str| p@);
            let mut i: usize = 0;
            while i < pkgs.len()
                invariant
                    i <= pkgs.len(),
                    ps == pkgs@.map_values(|p: &'static str| p@),
                    versions@ == fill_missing(m0, ps.take(i as int), av@),
                decreases pkgs.len() - i,
            {
                proof {
                    assert(ps.take(i + 1).drop_last() =~= ps.take(i as int));
                    assert(ps.take(i + 1).last() == pkgs@[i as int]@);
                }
                let key = sanitize_key(pkgs[i]);
                versions.insert_if_absent(key, av.clone());
                i = i + 1;
            }
            assert(ps.take(pkgs.len() as int) =~= ps);
        },
        None => {},
    }
    versions
}

/// The packages of `supplemental` that have no version in `m`, in order.
pub open spec fn missing_spec(m: Map<Seq<char>, Seq<char>>, supplemental: Seq<Seq<char>>) -> Seq<
    Seq<char>,
> {
    supplemental.filter(|p: Seq<char>| !m.contains_key(key_of(p)))
}

/// The supplemental packages still without a version, which have to be fetched one by one.
pub fn missing_packages(versions: &VersionMap, supplemental: &Vec<&str>) -> (r: Vec<String>)
    ensures
        views_of_strings(r@) == missing_spec(versions@, supplemental@.map_values(|p: &str| p@)),
{
    let ghost sup = supplemental@.map_values(|p: &str| p@);
    let mut out: Vec<String> = Vec::new();
    let mut i: usize = 0;
    while i < supplemental.len()
        invariant
            i <= supplemental.len(),
            sup == supplemental@.map_values(|p: &str| p@),
            views_of_strings(out@) == missing_spec(versions@, sup.take(i as int)),
        decreases supplemental.len() - i,
    {
        proof {
            assert(sup.take(i + 1).drop_last() =~= sup.take(i as int));
            reveal(Seq::filter);
        }
        let p = supplemental[i];
        let key = sanitize_key(p);
        if !versions.contains_key(key.as_str()) {
            let ghost before = out@;
            out.push(owned(p));
            assert(views_of_strings(out@) =~= views_of_strings(before).push(p@));
        }
        i = i + 1;
    }
    assert(sup.take(supplemental.len() as int) =~= sup);
    out
}

/// The character sequences of a sequence of strings.
pub open spec fn views_of_strings(v: Seq<String>) -> Seq<Seq<char>> {
    v.map_values(|s: String| s@)
}


// ── Reconciling peer requirements ────────────────────────────────────────────

/// Whether the version already resolved for an anchor package (`current`) breaks the peer
/// range a tooling package declares on it (`range`); when either is unknown nothing is to be done.
pub open spec fn peer_conflict_spec(current: Option<Seq<char>>, range: Option<Seq<char>>) -> bool {
    match (current, range) {
        (Some(c), Some(r)) => !satisfies(c, r),
        _ => false,
    }
}

pub fn peer_conflict(current: Option<&str>, range: Option<&str>) -> (r: bool)
    ensures
        r == peer_conflict_spec(
            match current {
                Some(c) => Some(c@),
                None => None,
            },
            match range {
                Some(x) => Some(x@),
                None => None,
            },
        ),
{
    match (current, range) {
        (Some(c), Some(x)) => !version_satisfies(c, x),
        _ => false,
    }
}

/// The higher of the best version so far and `v` in semver order; of two equal versions the
/// later one (`v`) is kept.
pub open spec fn pick_higher(best: Option<Seq<char>>, v: Seq<char>) -> Option<Seq<char>> {
    match best {
        None => Some(v),
        Some(b) => if semver_less(v, b) {
            Some(b)
        } else {
            Some(v)
        },
    }
}

/// The highest of the versions `vs[i]` for which `keep[i]` holds.
pub open spec fn highest_kept(vs: Seq<Seq<char>>, keep: Seq<bool>) -> Option<Seq<char>>
    decreases vs.len(),
{
    if vs.len() == 0 {
        None
    } else {
        let rest = highest_kept(vs.drop_last(), keep.take(vs.len() - 1));
        if keep[vs.len() - 1] {
            pick_higher(rest, vs.last())
        } else {
            rest
        }
    }
}

/// Whether `v` is a version `req` matches.
pub open spec fn matching_version(v: Seq<char>, req: Seq<char>) -> bool {
    semver_version_valid(v) && semver_matches(req, v)
}

fn highest_of(vs: &Vec<String>, keep: &Vec<bool>) -> (r: Option<String>)
    requires
        vs.len() == keep.len(),
        forall|i: int| 0 <= i < vs.len() && #[trigger] keep@[i] ==> semver_version_valid(vs@[i]@),
    ensures
        match r {
            Some(s) => highest_kept(views_of_strings(vs@), keep@) == Some(s@),
            None => highest_kept(views_of_strings(vs@), keep@) is None,
        },
{
    let ghost all = views_of_strings(vs@);
    let mut best: Option<String> = None;
    let mut best_parsed: Option<ParsedVersion> = None;
    let mut i: usize = 0;
    while i < vs.len()
        invariant
            i <= vs.len() == keep.len(),
            all == views_of_strings(vs@),
            forall|j: int| 0 <= j < vs.len() && #[trigger] keep@[j] ==> semver_version_valid(vs@[j]@),
            best is None ==> best_parsed is None,
            match best {
                Some(s) => highest_kept(all.take(i as int), keep@.take(i as int)) == Some(s@)
                    && (best_parsed matches Some(p) && p.source() == s@),
                None => highest_kept(all.take(i as int), keep@.take(i as int)) is None,
            },
        decreases vs.len() - i,
    {
        proof {
            assert(all.take(i + 1).drop_last() =~= all.take(i as int));
            assert(keep@.take(i + 1).take(i as int) =~= keep@.take(i as int));
            assert(all.take(i + 1).last() == vs@[i as int]@);
            assert(keep@.take(i + 1)[i as int] == keep@[i as int]);
        }
        let ghost prev = highest_kept(all.take(i as int), keep@.take(i as int));
        assert(highest_kept(all.take(i + 1), keep@.take(i + 1)) == (if keep@[i as int] {
            pick_higher(prev, vs@[i as int]@)
        } else {
            prev
        }));
        if keep[i] {
            match ParsedVersion::parse(vs[i].as_str()) {
                Some(v) => {
                    let replace = match &best_parsed {
                        Some(b) => !v.less_than(b),
                        None => true,
                    };
                    if replace {
                        best = Some(vs[i].clone());
                        best_parsed = Some(v);
                    }
                },
                None => {},
            }
        }
        i = i + 1;
    }
    proof {
        assert(all.take(vs.len() as int) =~= all);
        assert(keep@.take(vs.len() as int) =~= keep@);
    }
    best
}


/// The highest published version that the npm range `range` allows; `None` when semver cannot
/// read the range or nothing matches.
pub open spec fn max_satisfying_spec(published: Seq<Seq<char>>, range: Seq<char>) -> Option<Seq<char>> {
    match range_req_text(range) {
        Some(t) => if semver_req_valid(t) {
            highest_kept(published, published.map_values(|v: Seq<char>| matching_version(v, t)))
        } else {
            None
        },
        None => None,
    }
}

pub fn max_satisfying_in(published: &Vec<String>, range: &str) -> (r: Option<String>)
    ensures
        match r {
            Some(s) => max_satisfying_spec(views_of_strings(published@), range@) == Some(s@),
            None => max_satisfying_spec(views_of_strings(published@), range@) is None,
        },
{
    let req = match npm_range_to_req(range) {
        Some(q) => q,
        None => {
            return None;
        },
    };
    let ghost t = req.source();
    let ghost vs = views_of_strings(published@);
    let mut keep: Vec<bool> = Vec::new();
    let mut i: usize = 0;
    while i < published.len()
        invariant
            i <= published.len(),
            keep.len() == i,
            vs == views_of_strings(published@),
            t == req.source(),
            forall|j: int| 0 <= j < i ==> #[trigger] keep@[j] == matching_version(vs[j], t),
        decreases published.len() - i,
    {
        let k = match ParsedVersion::parse(published[i].as_str()) {
            Some(v) => req.matches(&v),
            None => false,
        };
        keep.push(k);
        i = i + 1;
    }
    assert(keep@ =~= vs.map_values(|v: Seq<char>| matching_version(v, t)));
    highest_of(published, &keep)
}

/// A published version and the peer range it declares on some package, if it declares one.
pub struct PeerDeclaration {
    pub version: String,
    pub peer_range: Option<String>,
}

/// Whether a published version declares a peer range that `peer_version` satisfies.
pub open spec fn own_peer_accepts(d: PeerDeclaration, peer_version: Seq<char>) -> bool {
    semver_version_valid(d.version@) && match d.peer_range {
        Some(range) => satisfies(peer_version, range@),
        None => false,
    }
}

/// The highest published version whose own declared peer range accepts `peer_version`.
pub open spec fn max_own_peer_spec(ds: Seq<PeerDeclaration>, peer_version: Seq<char>) -> Option<Seq<char>> {
    highest_kept(
        ds.map_values(|d: PeerDeclaration| d.version@),
        ds.map_values(|d: PeerDeclaration| own_peer_accepts(d, peer_version)),
    )
}

pub fn max_satisfying_own_peer_in(declarations: &Vec<PeerDeclaration>, peer_version: &str) -> (r:
    Option<String>)
    ensures
        match r {
            Some(s) => max_own_peer_spec(declarations@, peer_version@) == Some(s@),
            None => max_own_peer_spec(declarations@, peer_version@) is None,
        },
{
    let ghost ds = declarations@;
    let mut versions: Vec<String> = Vec::new();
    let mut keep: Vec<bool> = Vec::new();
    let mut i: usize = 0;
    while i < declarations.len()
        invariant
            i <= declarations.len(),
            keep.len() == i,
            versions.len() == i,
            ds == declarations@,
            forall|j: int| 0 <= j < i ==> #[trigger] keep@[j] == own_peer_accepts(ds[j], peer_version@),
            forall|j: int| 0 <= j < i ==> #[trigger] versions@[j]@ == ds[j].version@,
        decreases declarations.len() - i,
    {
        let d = &declarations[i];
        let k = match ParsedVersion::parse(d.version.as_str()) {
            Some(_) => match &d.peer_range {
                Some(range) => version_satisfies(peer_version, range.as_str()),
                None => false,
            },
            None => false,
        };
        keep.push(k);
        versions.push(d.version.clone());
        i = i + 1;
    }
    assert(keep@ =~= ds.map_values(|d: PeerDeclaration| own_peer_accepts(d, peer_version@)));
    assert(views_of_strings(versions@) =~= ds.map_values(|d: PeerDeclaration| d.version@));
    highest_of(&versions, &keep)
}

/// `m` with each fetched `(package, version)` recorded under the package's key, later ones
/// replacing earlier ones.
pub open spec fn record_fetched(m: Map<Seq<char>, Seq<char>>, fetched: Seq<(String, String)>) -> Map<
    Seq<char>,
    Seq<char>,
>
    decreases fetched.len(),
{
    if fetched.len() == 0 {
        m
    } else {
        record_fetched(m, fetched.drop_last()).insert(
            key_of(fetched.last().0@),
            fetched.last().1@,
        )
    }
}

/// Records each fetched `(package, version)` under the package's key.
pub fn insert_fetched(versions: &mut VersionMap, fetched: &Vec<(String, String)>)
    ensures
        final(versions)@ == record_fetched(old(versions)@, fetched@),
{
    let ghost start = versions@;
    let mut i: usize = 0;
    while i < fetched.len()
        invariant
            i <= fetched.len(),
            versions@ == record_fetched(start, fetched@.take(i as int)),
        decreases fetched.len() - i,
    {
        proof {
            assert(fetched@.take(i + 1).drop_last() =~= fetched@.take(i as int));
        }
        let key = sanitize_key(fetched[i].0.as_str());
        versions.insert(key, fetched[i].1.clone());
        i = i + 1;
    }
    assert(fetched@.take(fetched.len() as int) =~= fetched@);
}

/// `m` with every package of `pkgs` pinned to `v`.
pub open spec fn pin_all_spec(m: Map<Seq<char>, Seq<char>>, pkgs: Seq<Seq<char>>, v: Seq<char>) -> Map<
    Seq<char>,
    Seq<char>,
>
    decreases pkgs.len(),
{
    if pkgs.len() == 0 {
        m
    } else {
        pin_all_spec(m, pkgs.drop_last(), v).insert(key_of(pkgs.last()), v)
    }
}

/// Pins every package of `packages` (which move in lockstep) to `version`.
pub fn pin_all(versions: &mut VersionMap, packages: &Vec<&str>, version: &str)
    ensures
        final(versions)@ == pin_all_spec(
            old(versions)@,
            packages@.map_values(|p: &str| p@),
            version@,
        ),
{
    let ghost start = versions@;
    let ghost ps = packages@.map_values(|p: &str| p@);
    let mut i: usize = 0;
    while i < packages.len()
        invariant
            i <= packages.len(),
            ps == packages@.map_values(|p: &str| p@),
            versions@ == pin_all_spec(start, ps.take(i as int), version@),
        decreases packages.len() - i,
    {
        proof {
            assert(ps.take(i + 1).drop_last() =~= ps.take(i as int));
        }
        let key = sanitize_key(packages[i]);
        versions.insert(key, owned(version));
        i = i + 1;
    }
    assert(ps.take(packages.len() as int) =~= ps);
}

// ── Reconciling, step by step ────────────────────────────────────────────────

/// What reconciling a tooling package with the anchor package it declares a peer range on asks
/// for next.
#[derive(Clone, Copy, PartialEq, Eq, Structural, Debug)]
pub enum ReconcileAction {
    /// Read the tooling package's peer range on the anchor from its latest metadata.
    FetchPeerRange,
    /// List every published version: of the anchor when pinning the anchor, of the tooling
    /// package when choosing the tooling version.
    FetchPublished,
    /// The versions are settled.
    Done,
}

pub open spec fn str_opt_view(o: Option<&str>) -> Option<Seq<char>> {
    match o {
        Some(s) => Some(s@),
        None => None,
    }
}

/// Whether semver can read the requirement an npm range stands for.
pub open spec fn range_readable(range: Seq<char>) -> bool {
    match range_req_text(range) {
        Some(t) => semver_req_valid(t),
        None => false,
    }
}

/// One step of fitting the anchor to a tooling package's peer range. Nothing happens without
/// a resolved anchor version, once the tooling package turns out to declare no range or one the
/// anchor satisfies, or when semver can't read that range. Otherwise, once the anchor's
/// published versions are known, the anchor and the packages versioned with it (`co`) are
/// pinned to the highest of them in the range, if there is one.
pub open spec fn peer_step(
    m: Map<Seq<char>, Seq<char>>,
    anchor: Seq<char>,
    co: Seq<Seq<char>>,
    range: Option<Option<Seq<char>>>,
    published: Option<Seq<Seq<char>>>,
) -> (Map<Seq<char>, Seq<char>>, ReconcileAction) {
    let key = key_of(anchor);
    if !m.contains_key(key) {
        (m, ReconcileAction::Done)
    } else {
        match range {
            None => (m, ReconcileAction::FetchPeerRange),
            Some(rg) => {
                let text = match rg {
                    Some(t) => t,
                    None => Seq::empty(),
                };
                if !peer_conflict_spec(Some(m[key]), rg) || !range_readable(text) {
                    (m, ReconcileAction::Done)
                } else {
                    match published {
                        None => (m, ReconcileAction::FetchPublished),
                        Some(names) => (
                            match max_satisfying_spec(names, text) {
                                Some(v) => pin_all_spec(m, co, v),
                                None => m,
                            },
                            ReconcileAction::Done,
                        ),
                    }
                }
            },
        }
    }
}

/// Takes one step of pinning `anchor_pkg` (and `co_versioned`) to what the tooling package's
/// peer range on it allows: `peer_range` is what was read of that range so far (`None` before
/// it is read), `published` the anchor's published versions (`None` before they are listed).
pub fn peer_reconcile_step(
    versions: &mut VersionMap,
    anchor_pkg: &str,
    co_versioned: &Vec<&str>,
    peer_range: Option<Option<&str>>,
    published: Option<&Vec<String>>,
) -> (r: ReconcileAction)
    ensures
        (final(versions)@, r) == peer_step(
            old(versions)@,
            anchor_pkg@,
            co_versioned@.map_values(|p: &str| p@),
            match peer_range {
                Some(rg) => Some(str_opt_view(rg)),
                None => None,
            },
            match published {
                Some(p) => Some(views_of_strings(p@)),
                None => None,
            },
        ),
{
    proof {
        reveal_strlit("");
    }
    let key = sanitize_key(anchor_pkg);
    let current = match versions.get(key.as_str()) {
        Some(c) => c.clone(),
        None => return ReconcileAction::Done,
    };
    let rg = match peer_range {
        None => return ReconcileAction::FetchPeerRange,
        Some(rg) => rg,
    };
    if !peer_conflict(Some(current.as_str()), rg) {
        return ReconcileAction::Done;
    }
    let text = match rg {
        Some(t) => t,
        None => "",
    };
    if npm_range_to_req(text).is_none() {
        return ReconcileAction::Done;
    }
    match published {
        None => ReconcileAction::FetchPublished,
        Some(names) => {
            match max_satisfying_in(names, text) {
                Some(v) => pin_all(versions, co_versioned, v.as_str()),
                None => {},
            }
            ReconcileAction::Done
        },
    }
}

/// One step of choosing a tooling package's version to fit the anchor already resolved.
/// Nothing happens without a resolved anchor version, or once the tooling package's latest
/// release turns out to declare no peer range on the anchor or one the anchor satisfies.
/// Otherwise, once the tooling package's published versions (each with its own peer range on
/// the anchor) are known, the tooling package is set to the highest of them whose range
/// accepts the anchor, if there is one.
pub open spec fn tooling_step(
    m: Map<Seq<char>, Seq<char>>,
    tooling: Seq<char>,
    anchor: Seq<char>,
    range: Option<Option<Seq<char>>>,
    published: Option<Seq<PeerDeclaration>>,
) -> (Map<Seq<char>, Seq<char>>, ReconcileAction) {
    let key = key_of(anchor);
    if !m.contains_key(key) {
        (m, ReconcileAction::Done)
    } else {
        match range {
            None => (m, ReconcileAction::FetchPeerRange),
            Some(rg) => if !peer_conflict_spec(Some(m[key]), rg) {
                (m, ReconcileAction::Done)
            } else {
                match published {
                    None => (m, ReconcileAction::FetchPublished),
                    Some(ds) => (
                        match max_own_peer_spec(ds, m[key]) {
                            Some(v) => m.insert(key_of(tooling), v),
                            None => m,
                        },
                        ReconcileAction::Done,
                    ),
                }
            },
        }
    }
}

/// Takes one step of choosing `tooling_pkg`'s version to fit `anchor_pkg`: `peer_range` is what
/// was read of the tooling package's peer range on the anchor so far (`None` before it is
/// read), `published` its published versions with their own ranges (`None` before they are
/// listed).
pub fn tooling_reconcile_step(
    versions: &mut VersionMap,
    tooling_pkg: &str,
    anchor_pkg: &str,
    peer_range: Option<Option<&str>>,
    published: Option<&Vec<PeerDeclaration>>,
) -> (r: ReconcileAction)
    ensures
        (final(versions)@, r) == tooling_step(
            old(versions)@,
            tooling_pkg@,
            anchor_pkg@,
            match peer_range {
                Some(rg) => Some(str_opt_view(rg)),
                None => None,
            },
            match published {
                Some(p) => Some(p@),
                None => None,
            },
        ),
{
    let key = sanitize_key(anchor_pkg);
    let anchor_version = match versions.get(key.as_str()) {
        Some(c) => c.clone(),
        None => return ReconcileAction::Done,
    };
    let rg = match peer_range {
        None => return ReconcileAction::FetchPeerRange,
        Some(rg) => rg,
    };
    if !peer_conflict(Some(anchor_version.as_str()), rg) {
        return ReconcileAction::Done;
    }
    match published {
        None => ReconcileAction::FetchPublished,
        Some(ds) => {
            match max_satisfying_own_peer_in(ds, anchor_version.as_str()) {
                Some(v) => versions.insert(sanitize_key(tooling_pkg), v),
                None => {},
            }
            ReconcileAction::Done
        },
    }
}

/// Whether `packages` holds `name`.
pub fn lists(packages: &Vec<&str>, name: &str) -> (r: bool)
    ensures
        r == packages@.map_values(|p: &str| p@).contains(name@),
{
    let ghost ps = packages@.map_values(|p: &str| p@);
    let mut i: usize = 0;
    while i < packages.len()
        invariant
            i <= packages.len(),
            ps == packages@.map_values(|p: &str| p@),
            forall|j: int| 0 <= j < i ==> ps[j] != name@,
        decreases packages.len() - i,
    {
        if crate::text::str_equal(packages[i], name) {
            assert(ps[i as int] == name@);
            return true;
        }
        i = i + 1;
    }
    false
}

/// An npm range that semver can't read never rules a version out, nor does a version that
/// semver can't read: either way the answer is `true`.
pub proof fn law_unreadable_range_fails_open(version: Seq<char>, range: Seq<char>)
    requires
        !(range_req_text(range) matches Some(t) && semver_req_valid(t)) || !semver_version_valid(
            version,
        ),
    ensures
        satisfies(version, range),
{
}

/// The first version recorded for a key wins: declarations that come later never change it.
pub proof fn law_first_declaration_wins(m: Map<Seq<char>, Seq<char>>, ds: Seq<DeclaredDependency>, k: Seq<char>)
    requires
        m.contains_key(k),
    ensures
        add_all_declared(m, ds).contains_key(k),
        add_all_declared(m, ds)[k] == m[k],
    decreases ds.len(),
{
    if ds.len() > 0 {
        law_first_declaration_wins(m, ds.drop_last(), k);
    }
}


// ── Laws ─────────────────────────────────────────────────────────────────────

/// A template key is the package name character for character, with `@`, `/`, `.` and `-`
/// turned into `_` and nothing else changed, so it holds none of them.
pub proof fn law_key_replaces_only_package_punctuation(package: Seq<char>)
    ensures
        key_of(package).len() == package.len(),
        forall|i: int|
            0 <= i < package.len() ==> {
                let c = package[i];
                let k = #[trigger] key_of(package)[i];
                &&& k != '@' && k != '/' && k != '.' && k != '-'
                &&& (c == '@' || c == '/' || c == '.' || c == '-') ==> k == '_'
                &&& !(c == '@' || c == '/' || c == '.' || c == '-') ==> k == c
            },
{
}

proof fn lemma_skip_non_digits(s: Seq<char>)
    ensures
        skip_non_digits(s).len() > 0 ==> is_ascii_digit_char(skip_non_digits(s)[0]),
        exists|k: int| 0 <= k <= s.len() && skip_non_digits(s) == #[trigger] s.skip(k),
    decreases s.len(),
{
    if s.len() > 0 && !is_ascii_digit_char(s[0]) {
        lemma_skip_non_digits(s.drop_first());
        let k = choose|k: int| 0 <= k <= s.drop_first().len() && skip_non_digits(s.drop_first()) == #[trigger] s.drop_first().skip(k);
        assert(s.drop_first().skip(k) =~= s.skip(k + 1));
    } else {
        assert(s.skip(0) =~= s);
    }
}

proof fn lemma_until_space(s: Seq<char>)
    ensures
        until_space(s).len() <= s.len(),
        forall|i: int| 0 <= i < until_space(s).len() ==> until_space(s)[i] == s[i] && !is_space(#[trigger] until_space(s)[i]),
    decreases s.len(),
{
    if s.len() > 0 && !is_space(s[0]) {
        lemma_until_space(s.drop_first());
        let u = until_space(s.drop_first());
        assert forall|i: int| 0 <= i < until_space(s).len() implies until_space(s)[i] == s[i] && !is_space(#[trigger] until_space(s)[i]) by {
            if i > 0 {
                assert(until_space(s)[i] == u[i - 1]);
            }
        }
    }
}

/// The version read out of an npm range is a run of the range's characters that starts with a
/// digit, holds a `.`, and holds no whitespace: `^1.2.3` gives `1.2.3`, `>= 22.0.0 < 23` gives
/// `22.0.0`.
pub proof fn law_version_in_range_shape(range: Seq<char>)
    ensures
        version_in_range(range) matches Some(v) ==> {
            &&& v.len() > 0
            &&& is_ascii_digit_char(v[0])
            &&& v.contains('.')
            &&& forall|i: int| 0 <= i < v.len() ==> !is_space(#[trigger] v[i])
            &&& exists|k: int| 0 <= k && k + v.len() <= range.len() && #[trigger] range.subrange(k, k + v.len()) == v
        },
{
    let d = skip_non_digits(range);
    lemma_skip_non_digits(range);
    lemma_until_space(d);
    let v = until_space(d);
    if v.contains('.') {
        let k = choose|k: int| 0 <= k <= range.len() && d == #[trigger] range.skip(k);
        assert(v.len() > 0);
        assert(v[0] == d[0]);
        assert(range.subrange(k, k + v.len()) =~= v);
    }
}

} // verus!
