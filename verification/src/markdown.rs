//! Schema-agnostic Markdown/frontmatter helpers shared by every article schema this tool parses
//! (`publish::article`, `content::article`): `---`-splitting and slugification.

use crate::text::{
    ascii_to_lower, char_is_alphanumeric, char_to_lowercase, chars_of, extend_chars,
    is_ascii_char, is_ascii_digit_char, is_ascii_lower, is_alnum, lower_of, string_of,
};
use vstd::prelude::*;

verus! {

// ── Lines ────────────────────────────────────────────────────────────────────

/// The character sequences held by a vector of lines.
pub open spec fn views(v: Seq<Vec<char>>) -> Seq<Seq<char>> {
    v.map_values(|l: Vec<char>| l@)
}

/// `line` without one trailing carriage return, if it has one.
pub open spec fn strip_cr(line: Seq<char>) -> Seq<char> {
    if line.len() > 0 && line.last() == '\r' {
        line.drop_last()
    } else {
        line
    }
}

/// The lines finished so far and the line being read, after reading `s`.
pub open spec fn line_scan(s: Seq<char>) -> (Seq<Seq<char>>, Seq<char>)
    decreases s.len(),
{
    if s.len() == 0 {
        (seq![], seq![])
    } else {
        let (done, cur) = line_scan(s.drop_last());
        if s.last() == '\n' {
            (done.push(strip_cr(cur)), seq![])
        } else {
            (done, cur.push(s.last()))
        }
    }
}

/// `str::lines`: split at `\n` or `\r\n`; a final line ending is optional, and a `\r` that no
/// `\n` follows stays in its line.
pub open spec fn lines_of(s: Seq<char>) -> Seq<Seq<char>> {
    let (done, cur) = line_scan(s);
    if cur.len() > 0 {
        done.push(cur)
    } else {
        done
    }
}

/// `lines.join("\n")`.
pub open spec fn join_lines(ls: Seq<Seq<char>>) -> Seq<char>
    decreases ls.len(),
{
    if ls.len() == 0 {
        seq![]
    } else if ls.len() == 1 {
        ls[0]
    } else {
        join_lines(ls.drop_last()) + seq!['\n'] + ls.last()
    }
}

fn strip_cr_exec(line: &mut Vec<char>)
    ensures
        final(line)@ == strip_cr(old(line)@),
{
    let n = line.len();
    if n > 0 && line[n - 1] == '\r' {
        line.pop();
    }
}

/// `s.lines()`, each line as a vector of characters.
pub fn lines_vec(s: &Vec<char>) -> (r: Vec<Vec<char>>)
    ensures
        views(r@) == lines_of(s@),
{
    let mut done: Vec<Vec<char>> = Vec::new();
    let mut cur: Vec<char> = Vec::new();
    let mut i: usize = 0;
    while i < s.len()
        invariant
            i <= s.len(),
            (views(done@), cur@) == line_scan(s@.take(i as int)),
        decreases s.len() - i,
    {
        proof {
            assert(s@.take(i + 1).drop_last() =~= s@.take(i as int));
        }
        let c = s[i];
        if c == '\n' {
            let mut line = cur;
            strip_cr_exec(&mut line);
            let ghost before = done@;
            done.push(line);
            assert(views(done@) =~= views(before).push(line@));
            cur = Vec::new();
        } else {
            cur.push(c);
        }
        i = i + 1;
    }
    assert(s@.take(s.len() as int) =~= s@);
    if cur.len() > 0 {
        let ghost before = done@;
        done.push(cur);
        assert(views(done@) =~= views(before).push(cur@));
    }
    done
}

proof fn lemma_join_push(ls: Seq<Seq<char>>, l: Seq<char>)
    ensures
        join_lines(ls.push(l)) == (if ls.len() == 0 {
            l
        } else {
            join_lines(ls) + seq!['\n'] + l
        }),
{
    assert(ls.push(l).drop_last() =~= ls);
}

/// `lines[from..to].join("\n")`.
pub fn join_range(lines: &Vec<Vec<char>>, from: usize, to: usize) -> (r: Vec<char>)
    requires
        from <= to <= lines.len(),
    ensures
        r@ == join_lines(views(lines@).subrange(from as int, to as int)),
{
    let ghost ls = views(lines@);
    let mut out: Vec<char> = Vec::new();
    let mut k: usize = from;
    while k < to
        invariant
            ls == views(lines@),
            from <= k <= to <= lines.len(),
            out@ == join_lines(ls.subrange(from as int, k as int)),
        decreases to - k,
    {
        proof {
            assert(ls.subrange(from as int, k + 1) =~= ls.subrange(from as int, k as int).push(
                ls[k as int],
            ));
            lemma_join_push(ls.subrange(from as int, k as int), ls[k as int]);
        }
        if k > from {
            out.push('\n');
        }
        extend_chars(&mut out, &lines[k]);
        k = k + 1;
    }
    out
}

// ── Frontmatter ──────────────────────────────────────────────────────────────

/// The `---` delimiter line.
pub open spec fn delimiter() -> Seq<char> {
    seq!['-', '-', '-']
}

/// The index of the first `---` line at or after `j`.
pub open spec fn first_delimiter_from(ls: Seq<Seq<char>>, j: int) -> Option<int>
    decreases ls.len() - j,
{
    if j < 0 || j >= ls.len() {
        None
    } else if ls[j] == delimiter() {
        Some(j)
    } else {
        first_delimiter_from(ls, j + 1)
    }
}

/// The frontmatter and body of `raw`: `None` unless its first line is `---` and a later line is
/// `---` too; otherwise the lines strictly between the first two `---` lines, and the lines after
/// the second one, each joined with `\n`.
pub open spec fn frontmatter_split(raw: Seq<char>) -> Option<(Seq<char>, Seq<char>)> {
    let ls = lines_of(raw);
    if ls.len() == 0 || ls[0] != delimiter() {
        None
    } else {
        match first_delimiter_from(ls, 1) {
            None => None,
            Some(end) => Some(
                (join_lines(ls.subrange(1, end)), join_lines(ls.subrange(end + 1, ls.len() as int))),
            ),
        }
    }
}

fn is_delimiter(line: &Vec<char>) -> (r: bool)
    ensures
        r == (line@ == delimiter()),
{
    let r = line.len() == 3 && line[0] == '-' && line[1] == '-' && line[2] == '-';
    if r {
        assert(line@ =~= delimiter());
    }
    r
}

/// Splits `---\n<yaml>\n---\n<body>` into `(yaml, body)`.
pub fn split_frontmatter(raw: &str) -> (r: Option<(String, String)>)
    ensures
        match r {
            Some((yaml, body)) => frontmatter_split(raw@) == Some((yaml@, body@)),
            None => frontmatter_split(raw@) is None,
        },
{
    let v = chars_of(raw);
    let lines = lines_vec(&v);
    let ghost ls = views(lines@);
    if lines.len() == 0 || !is_delimiter(&lines[0]) {
        proof {
            if ls.len() > 0 {
                assert(ls[0] == lines@[0]@);
            }
        }
        return None;
    }
    assert(ls[0] == lines@[0]@);
    let mut j: usize = 1;
    while j < lines.len()
        invariant
            ls == views(lines@),
            ls == lines_of(raw@),
            1 <= j <= lines.len(),
            ls.len() == lines.len(),
            ls[0] == delimiter(),
            first_delimiter_from(ls, 1) == first_delimiter_from(ls, j as int),
        decreases lines.len() - j,
    {
        assert(ls[j as int] == lines@[j as int]@);
        if is_delimiter(&lines[j]) {
            let yaml = join_range(&lines, 1, j);
            let body = join_range(&lines, j + 1, lines.len());
            assert(first_delimiter_from(ls, j as int) == Some(j as int));
            let ys = string_of(&yaml);
            let bs = string_of(&body);
            return Some((ys, bs));
        }
        j = j + 1;
    }
    assert(first_delimiter_from(ls, j as int) is None);
    None
}

/// A line as `str::lines` gives it back: no line feed in it, and no carriage return at its end.
pub open spec fn plain_line(l: Seq<char>) -> bool {
    (forall|i: int| 0 <= i < l.len() ==> l[i] != '\n') && !(l.len() > 0 && l.last() == '\r')
}

proof fn lemma_scan_append_plain(s: Seq<char>, t: Seq<char>)
    requires
        forall|i: int| 0 <= i < t.len() ==> t[i] != '\n',
    ensures
        line_scan(s + t) == (line_scan(s).0, line_scan(s).1 + t),
    decreases t.len(),
{
    if t.len() == 0 {
        assert(s + t =~= s);
        assert(line_scan(s).1 + t =~= line_scan(s).1);
    } else {
        let u = t.drop_last();
        lemma_scan_append_plain(s, u);
        assert((s + t).drop_last() =~= s + u);
        assert(line_scan(s).1 + u + seq![t.last()] =~= line_scan(s).1 + t);
    }
}

proof fn lemma_scan_join(ls: Seq<Seq<char>>)
    requires
        ls.len() > 0,
        forall|k: int| 0 <= k < ls.len() ==> plain_line(#[trigger] ls[k]),
    ensures
        line_scan(join_lines(ls)) == (ls.drop_last(), ls.last()),
    decreases ls.len(),
{
    if ls.len() == 1 {
        lemma_scan_append_plain(Seq::<char>::empty(), ls[0]);
        assert(Seq::<char>::empty() + ls[0] =~= ls[0]);
        assert(ls.drop_last() =~= Seq::<Seq<char>>::empty());
        assert(Seq::<char>::empty() + ls[0] =~= ls.last());
    } else {
        let front = ls.drop_last();
        assert forall|k: int| 0 <= k < front.len() implies plain_line(#[trigger] front[k]) by {
            assert(front[k] == ls[k]);
        }
        lemma_scan_join(front);
        let prefix = join_lines(front) + seq!['\n'];
        assert(prefix.drop_last() =~= join_lines(front));
        assert(plain_line(front.last()));
        assert(strip_cr(front.last()) == front.last());
        assert(line_scan(prefix) == (front.drop_last().push(front.last()), Seq::<char>::empty()));
        assert(front.drop_last().push(front.last()) =~= front);
        assert(plain_line(ls.last()));
        lemma_scan_append_plain(prefix, ls.last());
        assert(Seq::<char>::empty() + ls.last() =~= ls.last());
    }
}

/// The lines of a text made of plain lines, each ended by a line feed, are those lines.
pub proof fn lemma_lines_of_joined(ls: Seq<Seq<char>>)
    requires
        ls.len() > 0,
        forall|k: int| 0 <= k < ls.len() ==> plain_line(#[trigger] ls[k]),
    ensures
        lines_of(join_lines(ls) + seq!['\n']) == ls,
{
    lemma_scan_join(ls);
    let t = join_lines(ls) + seq!['\n'];
    assert(t.drop_last() =~= join_lines(ls));
    assert(strip_cr(ls.last()) == ls.last());
    assert(ls.drop_last().push(ls.last()) =~= ls);
}

proof fn lemma_first_delimiter(ls: Seq<Seq<char>>, j: int, end: int)
    requires
        1 <= j <= end < ls.len(),
        ls[end] == delimiter(),
        forall|k: int| j <= k < end ==> #[trigger] ls[k] != delimiter(),
    ensures
        first_delimiter_from(ls, j) == Some(end),
    decreases end - j,
{
    if j < end {
        lemma_first_delimiter(ls, j + 1, end);
    }
}

/// Wrapping a frontmatter block in `---` lines before a body, in a file whose lines all end in
/// a line feed, splits back into that block and that body, provided no line of the block is a
/// `---` line itself.
pub proof fn law_frontmatter_roundtrip(yaml: Seq<Seq<char>>, body: Seq<Seq<char>>)
    requires
        forall|k: int| 0 <= k < yaml.len() ==> plain_line(#[trigger] yaml[k]) && yaml[k]
            != delimiter(),
        forall|k: int| 0 <= k < body.len() ==> plain_line(#[trigger] body[k]),
    ensures
        frontmatter_split(
            join_lines(seq![delimiter()] + yaml + seq![delimiter()] + body) + seq!['\n'],
        ) == Some((join_lines(yaml), join_lines(body))),
{
    let ls = seq![delimiter()] + yaml + seq![delimiter()] + body;
    let end: int = yaml.len() as int + 1;
    assert forall|k: int| 0 <= k < ls.len() implies plain_line(#[trigger] ls[k]) by {
        if k == 0 || k == end {
            assert(ls[k] == delimiter());
        } else if k < end {
            assert(ls[k] == yaml[k - 1]);
        } else {
            assert(ls[k] == body[k - end - 1]);
        }
    }
    lemma_lines_of_joined(ls);
    assert(ls[0] == delimiter());
    assert(ls[end] == delimiter());
    assert forall|k: int| 1 <= k < end implies #[trigger] ls[k] != delimiter() by {
        assert(ls[k] == yaml[k - 1]);
    }
    lemma_first_delimiter(ls, 1, end);
    assert(ls.subrange(1, end) =~= yaml);
    assert(ls.subrange(end + 1, ls.len() as int) =~= body);
}

// ── Slugs ────────────────────────────────────────────────────────────────────

/// The slug built so far and whether it ends in a dash this pass added, after reading `s`:
/// alphanumeric characters are appended lowercased; any run of other characters becomes one
/// `-`, except before the first alphanumeric character.
pub open spec fn slug_scan(s: Seq<char>) -> (Seq<char>, bool)
    decreases s.len(),
{
    if s.len() == 0 {
        (seq![], false)
    } else {
        let (out, last_dash) = slug_scan(s.drop_last());
        let c = s.last();
        if is_alnum(c) {
            (out + lower_of(c), false)
        } else if !last_dash && out.len() > 0 {
            (out.push('-'), true)
        } else {
            (out, last_dash)
        }
    }
}

/// `s` without its trailing dashes.
pub open spec fn strip_trailing_dashes(s: Seq<char>) -> Seq<char>
    decreases s.len(),
{
    if s.len() > 0 && s.last() == '-' {
        strip_trailing_dashes(s.drop_last())
    } else {
        s
    }
}

/// The lowercase, alphanumeric-and-dashes slug of `s`.
pub open spec fn slug_of(s: Seq<char>) -> Seq<char> {
    strip_trailing_dashes(slug_scan(s).0)
}

/// Lowercase, alphanumeric-and-dashes slug (e.g. for tag slugs or a filename-derived post slug).
pub fn slugify(input: &str) -> (r: String)
    ensures
        r@ == slug_of(input@),
{
    let v = chars_of(input);
    let mut out: Vec<char> = Vec::new();
    let mut last_dash = false;
    let mut i: usize = 0;
    while i < v.len()
        invariant
            v@ == input@,
            i <= v.len(),
            (out@, last_dash) == slug_scan(v@.take(i as int)),
        decreases v.len() - i,
    {
        proof {
            assert(v@.take(i + 1).drop_last() =~= v@.take(i as int));
        }
        let c = v[i];
        if char_is_alphanumeric(c) {
            let low = char_to_lowercase(c);
            extend_chars(&mut out, &low);
            last_dash = false;
        } else if !last_dash && out.len() > 0 {
            out.push('-');
            last_dash = true;
        }
        i = i + 1;
    }
    assert(v@.take(v.len() as int) =~= v@);
    let ghost raw = out@;
    while out.len() > 0 && out[out.len() - 1] == '-'
        invariant
            strip_trailing_dashes(out@) == strip_trailing_dashes(raw),
        decreases out.len(),
    {
        out.pop();
    }
    string_of(&out)
}

/// A well-formed slug: lowercase ASCII letters, digits and dashes, neither starting nor ending
/// with a dash, with no two dashes in a row.
pub open spec fn is_slug(t: Seq<char>) -> bool {
    &&& forall|i: int|
        0 <= i < t.len() ==> (is_ascii_lower(t[i]) || is_ascii_digit_char(t[i]) || t[i] == '-')
    &&& t.len() > 0 ==> t[0] != '-' && t.last() != '-'
    &&& forall|i: int| 0 <= i < t.len() - 1 && #[trigger] t[i] == '-' ==> t[i + 1] != '-'
}

pub open spec fn all_ascii(s: Seq<char>) -> bool {
    forall|i: int| 0 <= i < s.len() ==> is_ascii_char(s[i])
}

/// What `slug_scan` keeps true on ASCII input.
spec fn scan_shape(out: Seq<char>, last_dash: bool) -> bool {
    &&& forall|i: int|
        0 <= i < out.len() ==> (is_ascii_lower(out[i]) || is_ascii_digit_char(out[i]) || out[i]
            == '-')
    &&& out.len() > 0 ==> out[0] != '-'
    &&& forall|i: int| 0 <= i < out.len() - 1 && #[trigger] out[i] == '-' ==> out[i + 1] != '-'
    &&& last_dash == (out.len() > 0 && out.last() == '-')
}

proof fn lemma_scan_shape(s: Seq<char>)
    requires
        all_ascii(s),
    ensures
        scan_shape(slug_scan(s).0, slug_scan(s).1),
    decreases s.len(),
{
    if s.len() > 0 {
        let p = s.drop_last();
        assert(all_ascii(p));
        lemma_scan_shape(p);
        let (out, ld) = slug_scan(p);
        let c = s.last();
        assert(is_ascii_char(c));
        if is_alnum(c) {
            let l = ascii_to_lower(c);
            assert(lower_of(c) =~= seq![l]);
            let o2 = out + lower_of(c);
            assert(o2 =~= out.push(l));
            assert forall|i: int| 0 <= i < o2.len() - 1 && #[trigger] o2[i] == '-' implies o2[i
                + 1] != '-' by {
                if i < out.len() - 1 {
                    assert(o2[i] == out[i]);
                }
            }
        } else if !ld && out.len() > 0 {
            let o2 = out.push('-');
            assert forall|i: int| 0 <= i < o2.len() - 1 && #[trigger] o2[i] == '-' implies o2[i
                + 1] != '-' by {
                if i < out.len() - 1 {
                    assert(o2[i] == out[i]);
                }
            }
        }
    }
}

proof fn lemma_strip_shape(out: Seq<char>, ld: bool)
    requires
        scan_shape(out, ld),
    ensures
        is_slug(strip_trailing_dashes(out)),
    decreases out.len(),
{
    if out.len() > 0 && out.last() == '-' {
        let p = out.drop_last();
        assert(scan_shape(p, p.len() > 0 && p.last() == '-')) by {
            assert forall|i: int| 0 <= i < p.len() - 1 && #[trigger] p[i] == '-' implies p[i + 1]
                != '-' by {
                assert(out[i] == p[i]);
            }
        }
        lemma_strip_shape(p, p.len() > 0 && p.last() == '-');
    }
}

/// The slug of an ASCII string is well-formed.
pub proof fn law_slug_well_formed(s: Seq<char>)
    requires
        all_ascii(s),
    ensures
        is_slug(slug_of(s)),
{
    lemma_scan_shape(s);
    lemma_strip_shape(slug_scan(s).0, slug_scan(s).1);
}

proof fn lemma_scan_of_slug(t: Seq<char>, n: nat)
    requires
        is_slug(t),
        n <= t.len(),
    ensures
        slug_scan(t.take(n as int)) == (t.take(n as int), n > 0 && t[n - 1] == '-'),
    decreases n,
{
    if n == 0 {
        assert(t.take(0) =~= Seq::<char>::empty());
    } else {
        let m = (n - 1) as nat;
        lemma_scan_of_slug(t, m);
        assert(t.take(n as int).drop_last() =~= t.take(m as int));
        let c = t[m as int];
        if c == '-' {
            assert(m > 0);
            assert(t[m - 1] != '-');
            assert(t.take(n as int) =~= t.take(m as int).push('-'));
        } else {
            assert(lower_of(c) =~= seq![c]);
            assert(t.take(n as int) =~= t.take(m as int) + seq![c]);
        }
    }
}

/// A well-formed slug is its own slug.
pub proof fn law_slug_fixed_point(t: Seq<char>)
    requires
        is_slug(t),
    ensures
        slug_of(t) == t,
{
    lemma_scan_of_slug(t, t.len());
    assert(t.take(t.len() as int) =~= t);
}

/// Slugifying an ASCII string twice gives the same slug as slugifying it once.
pub proof fn law_slug_idempotent(s: Seq<char>)
    requires
        all_ascii(s),
    ensures
        slug_of(slug_of(s)) == slug_of(s),
{
    law_slug_well_formed(s);
    law_slug_fixed_point(slug_of(s));
}

} // verus!
