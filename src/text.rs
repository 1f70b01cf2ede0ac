use vstd::prelude::*;
use vstd::string::*;

verus! {

/// Whether `c` has the Unicode `White_Space` property, the set of characters that
/// `char::is_whitespace` accepts.
pub open spec fn is_white_space(c: char) -> bool {
    ('\u{9}' <= c && c <= '\u{d}') || c == ' ' || c == '\u{85}' || c == '\u{a0}' || c
        == '\u{1680}' || ('\u{2000}' <= c && c <= '\u{200a}') || c == '\u{2028}' || c
        == '\u{2029}' || c == '\u{202f}' || c == '\u{205f}' || c == '\u{3000}'
}

/// First index at or after `i` that does not hold white space.
pub open spec fn trim_start(s: Seq<char>, i: int) -> int
    decreases s.len() - i,
{
    if 0 <= i < s.len() && is_white_space(s[i]) {
        trim_start(s, i + 1)
    } else {
        i
    }
}

/// End of `s[lo..j]` once the white space at its end is dropped.
pub open spec fn trim_end(s: Seq<char>, lo: int, j: int) -> int
    decreases j - lo,
{
    if lo < j <= s.len() && is_white_space(s[j - 1]) {
        trim_end(s, lo, j - 1)
    } else {
        j
    }
}

/// `s` without its leading and trailing white space.
pub open spec fn trimmed(s: Seq<char>) -> Seq<char> {
    let lo = trim_start(s, 0);
    s.subrange(lo, trim_end(s, lo, s.len() as int))
}

/// Index of the first `/` in `s` at or after `from`, or `s.len()` when there is none.
pub open spec fn slash_after(s: Seq<char>, from: int) -> int
    decreases s.len() - from,
{
    if from >= s.len() {
        s.len() as int
    } else if s[from] == '/' {
        from
    } else {
        slash_after(s, from + 1)
    }
}

/// `s` holds `lit` starting at index `at`.
pub open spec fn has_at(s: Seq<char>, at: int, lit: Seq<char>) -> bool {
    0 <= at && at + lit.len() <= s.len() && s.subrange(at, at + lit.len()) == lit
}

/// Code point of `c` with ASCII upper-case letters taken to lower case.
pub open spec fn folded_code(c: char) -> u32 {
    if 'A' <= c && c <= 'Z' {
        (c as u32 + 32) as u32
    } else {
        c as u32
    }
}

/// `s` under ASCII case folding, as code points.
pub open spec fn folded(s: Seq<char>) -> Seq<u32> {
    s.map_values(|c: char| folded_code(c))
}

/// The first `/` at or after `from` lies within `s`'s bounds, holds a `/` when it
/// is not the end, and no `/` comes before it.
pub proof fn lemma_slash_after_bounds(s: Seq<char>, from: int)
    requires
        0 <= from <= s.len(),
    ensures
        from <= slash_after(s, from) <= s.len(),
        slash_after(s, from) < s.len() ==> s[slash_after(s, from)] == '/',
        forall|k: int| from <= k < slash_after(s, from) ==> s[k] != '/',
    decreases s.len() - from,
{
    if from < s.len() && s[from] != '/' {
        lemma_slash_after_bounds(s, from + 1);
    }
}

/// The first `/` at or after `from` is the one at `k`, when none lies in between.
pub proof fn lemma_slash_after_at(s: Seq<char>, from: int, k: int)
    requires
        0 <= from <= k <= s.len(),
        k < s.len() ==> s[k] == '/',
        forall|i: int| from <= i < k ==> s[i] != '/',
    ensures
        slash_after(s, from) == k,
    decreases k - from,
{
    if from < k {
        lemma_slash_after_at(s, from + 1, k);
    }
}

/// A sequence that neither starts nor ends with white space is its own trimmed form.
pub proof fn lemma_trimmed_unchanged(s: Seq<char>)
    requires
        s.len() > 0,
        !is_white_space(s[0]),
        !is_white_space(s[s.len() - 1]),
    ensures
        trimmed(s) == s,
{
    assert(trim_start(s, 0) == 0);
    assert(trim_end(s, 0, s.len() as int) == s.len());
    assert(s.subrange(0, s.len() as int) =~= s);
}

/// The characters of `s`, one per element.
pub fn chars_of(s: &str) -> (r: Vec<char>)
    ensures
        r@ == s@,
{
    let mut v: Vec<char> = Vec::new();
    for c in it: s.chars()
        invariant
            v@ == it.seq().subrange(0, it.index() as int),
    {
        v.push(c);
    }
    v
}

/// Whether `c` is white space, as `char::is_whitespace` decides it.
pub fn white_space(c: char) -> (r: bool)
    ensures
        r == is_white_space(c),
{
    ('\u{9}' <= c && c <= '\u{d}') || c == ' ' || c == '\u{85}' || c == '\u{a0}' || c
        == '\u{1680}' || ('\u{2000}' <= c && c <= '\u{200a}') || c == '\u{2028}' || c
        == '\u{2029}' || c == '\u{202f}' || c == '\u{205f}' || c == '\u{3000}'
}

/// `s` without its leading and trailing white space.
pub fn trim(s: &str) -> (r: String)
    ensures
        r@ == trimmed(s@),
{
    let v = chars_of(s);
    let n = v.len();
    let mut lo: usize = 0;
    while lo < n && white_space(v[lo])
        invariant
            n == v@.len(),
            v@ == s@,
            lo <= n,
            trim_start(s@, 0) == trim_start(s@, lo as int),
        decreases n - lo,
    {
        lo = lo + 1;
    }
    let mut hi: usize = n;
    while lo < hi && white_space(v[hi - 1])
        invariant
            n == v@.len(),
            v@ == s@,
            lo <= hi <= n,
            lo == trim_start(s@, 0),
            trim_end(s@, lo as int, n as int) == trim_end(s@, lo as int, hi as int),
        decreases hi,
    {
        hi = hi - 1;
    }
    s.substring_char(lo, hi).to_owned()
}

/// Index of the first `/` in `v` at or after `from`, or its length when there is none.
pub fn find_slash(v: &Vec<char>, from: usize) -> (r: usize)
    requires
        from <= v@.len(),
    ensures
        r == slash_after(v@, from as int),
{
    let mut i = from;
    while i < v.len() && v[i] != '/'
        invariant
            from <= i <= v@.len(),
            slash_after(v@, from as int) == slash_after(v@, i as int),
        decreases v@.len() - i,
    {
        i = i + 1;
    }
    i
}

/// Whether `v` holds the characters of `lit` starting at index `at`.
pub fn holds_at(v: &Vec<char>, at: usize, lit: &str) -> (r: bool)
    ensures
        r == has_at(v@, at as int, lit@),
{
    let n = lit.unicode_len();
    if n > v.len() || at > v.len() - n {
        return false;
    }
    let mut i: usize = 0;
    while i < n
        invariant
            n == lit@.len(),
            at + n <= v.len(),
            i <= n,
            forall|k: int| 0 <= k < i ==> v@[at + k] == lit@[k],
        decreases n - i,
    {
        if v[at + i] != lit.get_char(i) {
            assert(v@.subrange(at as int, at + n)[i as int] != lit@[i as int]);
            return false;
        }
        i = i + 1;
    }
    assert(v@.subrange(at as int, at + n) =~= lit@);
    true
}

/// The code point of `c` under ASCII case folding.
fn fold_code(c: char) -> (r: u32)
    ensures
        r == folded_code(c),
{
    if 'A' <= c && c <= 'Z' {
        c as u32 + 32
    } else {
        c as u32
    }
}

/// Whether `v` equals `lit` once ASCII letters are folded to one case on both sides.
pub fn equals_ignoring_ascii_case(v: &Vec<char>, lit: &str) -> (r: bool)
    ensures
        r == (folded(v@) == folded(lit@)),
{
    let n = lit.unicode_len();
    if n != v.len() {
        assert(folded(v@).len() != folded(lit@).len());
        return false;
    }
    let mut i: usize = 0;
    while i < n
        invariant
            n == lit@.len(),
            n == v@.len(),
            i <= n,
            forall|k: int| 0 <= k < i ==> folded_code(v@[k]) == folded_code(lit@[k]),
        decreases n - i,
    {
        if fold_code(v[i]) != fold_code(lit.get_char(i)) {
            assert(folded(v@)[i as int] != folded(lit@)[i as int]);
            return false;
        }
        i = i + 1;
    }
    assert(folded(v@) =~= folded(lit@));
    true
}

} // verus!
