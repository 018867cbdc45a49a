//! Name-case conversions used when generating components, pages and services.

use crate::text::{
    ascii_to_lower, ascii_to_upper, is_ascii_upper, char_is_uppercase, char_to_lowercase, char_to_uppercase, chars_of, extend_chars, is_ascii_digit_char,
    is_ascii_lower, is_upper, lower_of, string_of, upper_of,
};
use vstd::prelude::*;

verus! {

/// The characters `to_pascal_case` splits words on.
pub open spec fn is_word_sep(c: char) -> bool {
    c == '-' || c == '_' || c == ' '
}

/// What character `i` of `s` contributes to its PascalCase form: nothing for a separator, the
/// uppercase mapping for the first character of a word, the character itself otherwise.
pub open spec fn pascal_piece(s: Seq<char>, i: int) -> Seq<char> {
    if is_word_sep(s[i]) {
        seq![]
    } else if i == 0 || is_word_sep(s[i - 1]) {
        upper_of(s[i])
    } else {
        seq![s[i]]
    }
}

/// The PascalCase form of the first `n` characters of `s`.
pub open spec fn pascal_upto(s: Seq<char>, n: nat) -> Seq<char>
    decreases n,
{
    if n == 0 {
        seq![]
    } else {
        pascal_upto(s, (n - 1) as nat) + pascal_piece(s, n - 1)
    }
}

/// `s` split on `-`, `_` and spaces, each word's first character uppercased, words concatenated.
pub open spec fn pascal_case(s: Seq<char>) -> Seq<char> {
    pascal_upto(s, s.len())
}

/// `s` lowercased, with a `-` inserted before every uppercase character but the first.
pub open spec fn kebab_case(s: Seq<char>) -> Seq<char>
    decreases s.len(),
{
    if s.len() == 0 {
        seq![]
    } else {
        kebab_case(s.drop_last()) + (if is_upper(s.last()) && s.len() > 1 {
            seq!['-']
        } else {
            seq![]
        }) + lower_of(s.last())
    }
}

/// Converts `hero-section`, `my_card`, `my card` or `HeroSection` to `HeroSection`.
pub fn to_pascal_case(input: &str) -> (r: String)
    ensures
        r@ == pascal_case(input@),
{
    let v = chars_of(input);
    let mut out: Vec<char> = Vec::new();
    let mut i: usize = 0;
    while i < v.len()
        invariant
            v@ == input@,
            i <= v.len(),
            out@ == pascal_upto(v@, i as nat),
        decreases v.len() - i,
    {
        let c = v[i];
        let is_sep = c == '-' || c == '_' || c == ' ';
        if is_sep {
        } else if i == 0 || (v[i - 1] == '-' || v[i - 1] == '_' || v[i - 1] == ' ') {
            let up = char_to_uppercase(c);
            extend_chars(&mut out, &up);
        } else {
            out.push(c);
        }
        i = i + 1;
    }
    string_of(&out)
}

/// Converts `HeroSection` to `hero-section`.
pub fn to_kebab_case(pascal: &str) -> (r: String)
    ensures
        r@ == kebab_case(pascal@),
{
    let v = chars_of(pascal);
    let mut out: Vec<char> = Vec::new();
    let mut i: usize = 0;
    while i < v.len()
        invariant
            v@ == pascal@,
            i <= v.len(),
            out@ == kebab_case(v@.take(i as int)),
        decreases v.len() - i,
    {
        let c = v[i];
        proof {
            assert(v@.take(i + 1).drop_last() =~= v@.take(i as int));
        }
        if char_is_uppercase(c) && i != 0 {
            out.push('-');
        }
        let low = char_to_lowercase(c);
        extend_chars(&mut out, &low);
        i = i + 1;
    }
    assert(v@.take(v.len() as int) =~= v@);
    string_of(&out)
}

/// A kebab-case name: lowercase ASCII words of letters and digits, each starting with a letter,
/// joined by single dashes.
pub open spec fn is_kebab_name(s: Seq<char>) -> bool {
    &&& s.len() > 0
    &&& forall|i: int|
        0 <= i < s.len() ==> (is_ascii_lower(s[i]) || is_ascii_digit_char(s[i]) || s[i] == '-')
    &&& is_ascii_lower(s[0])
    &&& forall|i: int|
        0 <= i < s.len() && #[trigger] s[i] == '-' ==> i + 1 < s.len() && is_ascii_lower(s[i + 1])
}

proof fn lemma_kebab_push(a: Seq<char>, c: char)
    ensures
        kebab_case(a.push(c)) == kebab_case(a) + (if is_upper(c) && a.len() > 0 {
            seq!['-']
        } else {
            seq![]
        }) + lower_of(c),
{
    assert(a.push(c).drop_last() =~= a);
}

proof fn lemma_pascal_nonempty(s: Seq<char>, n: nat)
    requires
        1 <= n <= s.len(),
        is_kebab_name(s),
    ensures
        pascal_upto(s, n).len() >= 1,
    decreases n,
{
    if n > 1 {
        lemma_pascal_nonempty(s, (n - 1) as nat);
    }
}

proof fn lemma_kebab_of_pascal_prefix(s: Seq<char>, n: nat)
    requires
        n <= s.len(),
        is_kebab_name(s),
    ensures
        kebab_case(pascal_upto(s, n)) == (if n > 0 && s[n - 1] == '-' {
            s.take(n - 1)
        } else {
            s.take(n as int)
        }),
    decreases n,
{
    if n == 0 {
        assert(s.take(0) =~= Seq::<char>::empty());
    } else {
        let m = (n - 1) as nat;
        lemma_kebab_of_pascal_prefix(s, m);
        let p = pascal_upto(s, m);
        let c = s[m as int];
        if c == '-' {
            assert(pascal_piece(s, m as int) =~= Seq::<char>::empty());
            assert(p + pascal_piece(s, m as int) =~= p);
            if m > 0 {
                assert(s[m - 1] != '-');
            }
        } else if m == 0 || is_word_sep(s[m - 1]) {
            assert(is_ascii_lower(c));
            let up = ascii_to_upper(c);
            assert(pascal_piece(s, m as int) =~= seq![up]);
            assert(p + pascal_piece(s, m as int) =~= p.push(up));
            lemma_kebab_push(p, up);
            assert(lower_of(up) =~= seq![c]);
            if m == 0 {
                assert(p =~= Seq::<char>::empty());
                assert(s.take(1) =~= seq![c]);
            } else {
                assert(s[m - 1] == '-');
                lemma_pascal_nonempty(s, m);
                assert(s.take(n as int) =~= s.take(m - 1) + seq!['-'] + seq![c]);
            }
        } else {
            assert(pascal_piece(s, m as int) =~= seq![c]);
            assert(p + pascal_piece(s, m as int) =~= p.push(c));
            lemma_kebab_push(p, c);
            assert(lower_of(c) =~= seq![c]);
            assert(s.take(n as int) =~= s.take(m as int).push(c));
        }
    }
}

/// Converting a kebab-case name to PascalCase and back gives the original name.
pub proof fn law_kebab_pascal_roundtrip(s: Seq<char>)
    requires
        is_kebab_name(s),
    ensures
        kebab_case(pascal_case(s)) == s,
{
    lemma_kebab_of_pascal_prefix(s, s.len());
    assert(s[s.len() - 1] != '-');
    assert(s.take(s.len() as int) =~= s);
}

/// A PascalCase name: uppercase-led words of ASCII letters and digits, run together; that is,
/// ASCII letters and digits only, the first an uppercase letter.
pub open spec fn is_pascal_name(p: Seq<char>) -> bool {
    &&& p.len() > 0
    &&& is_ascii_upper(p[0])
    &&& forall|i: int|
        0 <= i < p.len() ==> (is_ascii_upper(p[i]) || is_ascii_lower(p[i]) || is_ascii_digit_char(p[i]))
}

proof fn lemma_pascal_upto_same_prefix(a: Seq<char>, b: Seq<char>, j: nat)
    requires
        j <= a.len(),
        j <= b.len(),
        forall|i: int| 0 <= i < j ==> a[i] == b[i],
    ensures
        pascal_upto(a, j) == pascal_upto(b, j),
    decreases j,
{
    if j > 0 {
        lemma_pascal_upto_same_prefix(a, b, (j - 1) as nat);
        assert(pascal_piece(a, j - 1) == pascal_piece(b, j - 1));
    }
}

proof fn lemma_pascal_of_kebab_prefix(p: Seq<char>, n: nat)
    requires
        is_pascal_name(p),
        n <= p.len(),
    ensures
        pascal_case(kebab_case(p.take(n as int))) == p.take(n as int),
        n > 0 ==> kebab_case(p.take(n as int)).len() > 0 && !is_word_sep(
            kebab_case(p.take(n as int)).last(),
        ),
    decreases n,
{
    if n == 0 {
        assert(p.take(0) =~= Seq::<char>::empty());
        assert(kebab_case(Seq::<char>::empty()) =~= Seq::<char>::empty());
    } else {
        let m = (n - 1) as nat;
        lemma_pascal_of_kebab_prefix(p, m);
        let k = kebab_case(p.take(m as int));
        let c = p[m as int];
        assert(p.take(n as int).drop_last() =~= p.take(m as int));
        assert(p.take(n as int).last() == c);
        assert(p.take(n as int) =~= p.take(m as int).push(c));
        let lc = ascii_to_lower(c);
        assert(lower_of(c) =~= seq![lc]);
        let l = k.len();
        if is_ascii_upper(c) && m > 0 {
            let k2 = k + seq!['-'] + seq![lc];
            assert(kebab_case(p.take(n as int)) =~= k2);
            lemma_pascal_upto_same_prefix(k2, k, l);
            assert(pascal_piece(k2, l as int) =~= Seq::<char>::empty());
            assert(pascal_upto(k2, l + 1) =~= pascal_upto(k2, l));
            assert(upper_of(lc) =~= seq![c]);
            assert(pascal_piece(k2, (l + 1) as int) =~= seq![c]);
            assert(pascal_upto(k2, l + 2) =~= pascal_upto(k2, l + 1) + seq![c]);
            assert(k2.len() == l + 2);
        } else if is_ascii_upper(c) {
            assert(k =~= Seq::<char>::empty()) by {
                assert(p.take(0) =~= Seq::<char>::empty());
            }
            let k2 = seq![lc];
            assert(kebab_case(p.take(n as int)) =~= k2);
            assert(upper_of(lc) =~= seq![c]);
            assert(pascal_piece(k2, 0) =~= seq![c]);
            assert(pascal_upto(k2, 1) =~= pascal_upto(k2, 0) + seq![c]);
            assert(p.take(0) =~= Seq::<char>::empty());
        } else {
            assert(m > 0);
            assert(lc == c);
            let k2 = k + seq![c];
            assert(kebab_case(p.take(n as int)) =~= k2);
            lemma_pascal_upto_same_prefix(k2, k, l);
            assert(k2[l - 1] == k.last());
            assert(pascal_piece(k2, l as int) =~= seq![c]);
            assert(pascal_upto(k2, l + 1) =~= pascal_upto(k2, l) + seq![c]);
        }
    }
}

/// Converting a PascalCase name to kebab-case and back gives the original name.
pub proof fn law_pascal_kebab_roundtrip(p: Seq<char>)
    requires
        is_pascal_name(p),
    ensures
        pascal_case(kebab_case(p)) == p,
{
    lemma_pascal_of_kebab_prefix(p, p.len());
    assert(p.take(p.len() as int) =~= p);
}

} // verus!
