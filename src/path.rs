//! Case-insensitive glob matching of repository paths, confined to the root.
use vstd::prelude::*;
use vstd::string::*;

use crate::check::RepoEntry;

verus! {

/// ASCII lower-casing of a character code.
pub open spec fn fold(c: char) -> u32 {
    if 65 <= c as u32 && c as u32 <= 90 {
        (c as u32 + 32) as u32
    } else {
        c as u32
    }
}

/// Two characters equal up to ASCII case.
pub open spec fn same_letter(a: char, b: char) -> bool {
    fold(a) == fold(b)
}

/// Whether `t[j..]` matches the glob `p[i..]`: `*` stands for any run of
/// characters within one path component (no `/`), every other character
/// matches itself up to ASCII case.
pub open spec fn glob_from(p: Seq<char>, i: int, t: Seq<char>, j: int) -> bool
    decreases (p.len() - i) + (t.len() - j),
{
    if i < 0 || j < 0 || i > p.len() || j > t.len() {
        false
    } else if i == p.len() {
        j == t.len()
    } else if p[i] == '*' {
        glob_from(p, i + 1, t, j) || (j < t.len() && t[j] != '/' && glob_from(p, i, t, j + 1))
    } else {
        j < t.len() && same_letter(p[i], t[j]) && glob_from(p, i + 1, t, j + 1)
    }
}

/// Whether the whole path `t` matches the glob `p`.
pub open spec fn glob_matches(p: Seq<char>, t: Seq<char>) -> bool {
    glob_from(p, 0, t, 0)
}

/// A `..` component of the path starts at position `k`.
pub open spec fn up_at(t: Seq<char>, k: int) -> bool {
    0 <= k && k + 2 <= t.len() && t[k] == '.' && t[k + 1] == '.' && (k == 0 || t[k - 1] == '/')
        && (k + 2 == t.len() || t[k + 2] == '/')
}

/// The path names something inside the root: it is relative, and no
/// component of it is `..`.
pub open spec fn confined(t: Seq<char>) -> bool {
    &&& (t.len() == 0 || t[0] != '/')
    &&& forall|k: int| !#[trigger] up_at(t, k)
}

/// The path lies in the root and matches one of the globs.
pub open spec fn path_found(pats: Seq<&str>, t: Seq<char>) -> bool {
    confined(t) && exists|i: int| 0 <= i < pats.len() && glob_matches(#[trigger] pats[i]@, t)
}

/// The characters of a string, one by one.
pub(crate) fn chars_of(s: &str) -> (r: Vec<char>)
    ensures
        r@ == s@,
{
    let n = s.unicode_len();
    let mut r: Vec<char> = Vec::new();
    let mut k: usize = 0;
    while k < n
        invariant
            n == s@.len(),
            k <= n,
            r@ == s@.subrange(0, k as int),
        decreases n - k,
    {
        r.push(s.get_char(k));
        k = k + 1;
        assert(r@ =~= s@.subrange(0, k as int));
    }
    assert(r@ =~= s@);
    r
}

fn fold_char(c: char) -> (r: u32)
    ensures
        r == fold(c),
{
    let x = c as u32;
    if 65 <= x && x <= 90 {
        x + 32
    } else {
        x
    }
}

fn glob_at(p: &Vec<char>, i: usize, t: &Vec<char>, j: usize) -> (r: bool)
    requires
        i <= p@.len(),
        j <= t@.len(),
    ensures
        r == glob_from(p@, i as int, t@, j as int),
    decreases (p@.len() - i) + (t@.len() - j),
{
    if i == p.len() {
        j == t.len()
    } else if p[i] == '*' {
        if glob_at(p, i + 1, t, j) {
            true
        } else {
            j < t.len() && t[j] != '/' && glob_at(p, i, t, j + 1)
        }
    } else {
        j < t.len() && fold_char(p[i]) == fold_char(t[j]) && glob_at(p, i + 1, t, j + 1)
    }
}

/// Whether `path` matches the glob `pattern`, up to ASCII case.
pub fn glob_match(pattern: &str, path: &str) -> (r: bool)
    ensures
        r == glob_matches(pattern@, path@),
{
    let p = chars_of(pattern);
    let t = chars_of(path);
    glob_at(&p, 0, &t, 0)
}

/// Whether `path` stays inside the root.
pub fn is_confined(path: &str) -> (r: bool)
    ensures
        r == confined(path@),
{
    let t = chars_of(path);
    let n = t.len();
    if n > 0 && t[0] == '/' {
        return false;
    }
    let mut k: usize = 0;
    while k < n && n - k >= 2
        invariant
            k <= n,
            n == t@.len(),
            t@ == path@,
            forall|m: int| m < k ==> !#[trigger] up_at(t@, m),
        decreases n - k,
    {
        if t[k] == '.' && t[k + 1] == '.' && (k == 0 || t[k - 1] == '/')
            && (k + 2 == n || t[k + 2] == '/') {
            assert(up_at(t@, k as int));
            return false;
        }
        k = k + 1;
    }
    assert forall|m: int| !#[trigger] up_at(t@, m) by {
        if m >= k {
            assert(m + 2 > n);
        }
    }
    true
}

/// Whether `path` lies in the root and matches one of `patterns`.
pub fn path_matches(patterns: &Vec<&str>, path: &str) -> (r: bool)
    ensures
        r == path_found(patterns@, path@),
{
    if !is_confined(path) {
        return false;
    }
    let mut i: usize = 0;
    while i < patterns.len()
        invariant
            i <= patterns@.len(),
            confined(path@),
            forall|m: int| 0 <= m < i ==> !glob_matches(#[trigger] patterns@[m]@, path@),
        decreases patterns@.len() - i,
    {
        if glob_match(patterns[i], path) {
            assert(glob_matches(patterns@[i as int]@, path@));
            return true;
        }
        i = i + 1;
    }
    false
}

/// The first entry, in tree order, that lies in the root and matches one of
/// `patterns`.
pub fn find(entries: &Vec<RepoEntry>, patterns: &Vec<&str>) -> (r: Option<usize>)
    ensures
        match r {
            Some(k) => k < entries@.len() && path_found(patterns@, entries@[k as int].path@)
                && forall|m: int| 0 <= m < k ==> !path_found(patterns@, #[trigger] entries@[m].path@),
            None => forall|m: int|
                0 <= m < entries@.len() ==> !path_found(patterns@, #[trigger] entries@[m].path@),
        },
{
    let mut k: usize = 0;
    while k < entries.len()
        invariant
            k <= entries@.len(),
            forall|m: int| 0 <= m < k ==> !path_found(patterns@, #[trigger] entries@[m].path@),
        decreases entries@.len() - k,
    {
        if path_matches(patterns, entries[k].path.as_str()) {
            return Some(k);
        }
        k = k + 1;
    }
    None
}

} // verus!

verus! {

proof fn lemma_same_punct(a: char, b: char)
    requires
        same_letter(a, b),
        (a as u32) < 65 || (b as u32) < 65,
    ensures
        a == b,
{
    assert(a as u32 == b as u32);
}

proof fn lemma_same_separators(t1: Seq<char>, t2: Seq<char>, x: int)
    requires
        0 <= x < t1.len(),
        t1.len() == t2.len(),
        forall|m: int| 0 <= m < t1.len() ==> same_letter(#[trigger] t1[m], t2[m]),
    ensures
        (t1[x] == '/') == (t2[x] == '/'),
        (t1[x] == '.') == (t2[x] == '.'),
{
    assert(same_letter(t1[x], t2[x]));
    if (t1[x] as u32) < 65 || (t2[x] as u32) < 65 {
        lemma_same_punct(t1[x], t2[x]);
    }
}

proof fn lemma_glob_from_case(p: Seq<char>, i: int, t1: Seq<char>, t2: Seq<char>, j: int)
    requires
        t1.len() == t2.len(),
        forall|m: int| 0 <= m < t1.len() ==> same_letter(#[trigger] t1[m], t2[m]),
    ensures
        glob_from(p, i, t1, j) == glob_from(p, i, t2, j),
    decreases (p.len() - i) + (t1.len() - j),
{
    if i < 0 || j < 0 || i > p.len() || j > t1.len() {
    } else if i == p.len() {
    } else if p[i] == '*' {
        lemma_glob_from_case(p, i + 1, t1, t2, j);
        if j < t1.len() {
            lemma_glob_from_case(p, i, t1, t2, j + 1);
            lemma_same_separators(t1, t2, j);
        }
    } else {
        if j < t1.len() {
            lemma_glob_from_case(p, i + 1, t1, t2, j + 1);
            assert(same_letter(t1[j], t2[j]));
        }
    }
}

/// Path matching ignores ASCII case: two paths that differ only in the case
/// of their letters are found by the same globs. A path that leaves the root
/// is never found.
pub proof fn lemma_path_matching_case_insensitive_and_confined(
    pats: Seq<&str>,
    t1: Seq<char>,
    t2: Seq<char>,
)
    requires
        t1.len() == t2.len(),
        forall|m: int| 0 <= m < t1.len() ==> same_letter(#[trigger] t1[m], t2[m]),
    ensures
        path_found(pats, t1) == path_found(pats, t2),
        !confined(t1) ==> !path_found(pats, t1),
{
    assert forall|i: int| 0 <= i < pats.len() implies glob_matches(#[trigger] pats[i]@, t1)
        == glob_matches(pats[i]@, t2) by {
        lemma_glob_from_case(pats[i]@, 0, t1, t2, 0);
    }
    if t1.len() > 0 {
        lemma_same_separators(t1, t2, 0);
    }
    assert forall|k: int| up_at(t1, k) == up_at(t2, k) by {
        if 0 <= k && k + 2 <= t1.len() {
            lemma_same_separators(t1, t2, k);
            lemma_same_separators(t1, t2, k + 1);
            if k > 0 {
                lemma_same_separators(t1, t2, k - 1);
            }
            if k + 2 < t1.len() {
                lemma_same_separators(t1, t2, k + 2);
            }
        }
    }
}

} // verus!
