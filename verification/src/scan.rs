//! Character-level scanning: Unicode whitespace trimming, searching, and
//! prefix, suffix and substring tests over character sequences.

use vstd::prelude::*;

verus! {

/// Unicode `White_Space`, the property that `char::is_whitespace` tests.
pub open spec fn is_whitespace(c: char) -> bool {
    let u = c as u32;
    (0x9 <= u <= 0xd) || u == 0x20 || u == 0x85 || u == 0xa0 || u == 0x1680
        || (0x2000 <= u <= 0x200a) || u == 0x2028 || u == 0x2029 || u == 0x202f
        || u == 0x205f || u == 0x3000
}

/// Whether a character is Unicode whitespace.
pub fn char_is_whitespace(c: char) -> (r: bool)
    ensures
        r == is_whitespace(c),
{
    let u = c as u32;
    (0x9 <= u && u <= 0xd) || u == 0x20 || u == 0x85 || u == 0xa0 || u == 0x1680
        || (0x2000 <= u && u <= 0x200a) || u == 0x2028 || u == 0x2029 || u == 0x202f
        || u == 0x205f || u == 0x3000
}

/// The number of whitespace characters at the start of `s`.
pub open spec fn leading_whitespace(s: Seq<char>) -> nat
    decreases s.len(),
{
    if s.len() > 0 && is_whitespace(s[0]) {
        1 + leading_whitespace(s.drop_first())
    } else {
        0
    }
}

/// The number of whitespace characters at the end of `s`.
pub open spec fn trailing_whitespace(s: Seq<char>) -> nat
    decreases s.len(),
{
    if s.len() > 0 && is_whitespace(s.last()) {
        1 + trailing_whitespace(s.drop_last())
    } else {
        0
    }
}

/// `s` without leading and trailing whitespace, as `str::trim` returns it.
pub open spec fn trim(s: Seq<char>) -> Seq<char> {
    let front = leading_whitespace(s);
    let rest = s.skip(front as int);
    rest.take(rest.len() - trailing_whitespace(rest))
}

proof fn lemma_leading(s: Seq<char>, k: int)
    requires
        0 <= k <= s.len(),
        forall|i: int| 0 <= i < k ==> is_whitespace(#[trigger] s[i]),
        k == s.len() || !is_whitespace(s[k]),
    ensures
        leading_whitespace(s) == k,
    decreases k,
{
    if k > 0 {
        assert forall|i: int| 0 <= i < k - 1 implies is_whitespace(#[trigger] s.drop_first()[i]) by {
            assert(s.drop_first()[i] == s[i + 1]);
        }
        lemma_leading(s.drop_first(), k - 1);
    }
}

proof fn lemma_trailing(s: Seq<char>, k: int)
    requires
        0 <= k <= s.len(),
        forall|i: int| s.len() - k <= i < s.len() ==> is_whitespace(#[trigger] s[i]),
        k == s.len() || !is_whitespace(s[s.len() - k - 1]),
    ensures
        trailing_whitespace(s) == k,
    decreases k,
{
    if k > 0 {
        assert forall|i: int| s.drop_last().len() - (k - 1) <= i < s.drop_last().len() implies is_whitespace(
            #[trigger] s.drop_last()[i],
        ) by {
            assert(s.drop_last()[i] == s[i]);
        }
        lemma_trailing(s.drop_last(), k - 1);
    }
}

proof fn lemma_trailing_bound(s: Seq<char>)
    ensures
        trailing_whitespace(s) <= s.len(),
    decreases s.len(),
{
    if s.len() > 0 {
        lemma_trailing_bound(s.drop_last());
    }
}

/// The characters of `s` without leading and trailing whitespace.
pub fn trim_chars(s: &[char]) -> (r: Vec<char>)
    ensures
        r@ == trim(s@),
{
    let mut start: usize = 0;
    while start < s.len() && char_is_whitespace(s[start])
        invariant
            start <= s@.len(),
            forall|i: int| 0 <= i < start ==> is_whitespace(#[trigger] s@[i]),
        decreases s.len() - start,
    {
        start = start + 1;
    }
    proof { lemma_leading(s@, start as int); }
    let mut end: usize = s.len();
    while end > start && char_is_whitespace(s[end - 1])
        invariant
            start <= end <= s@.len(),
            forall|i: int| end <= i < s@.len() ==> is_whitespace(#[trigger] s@[i]),
        decreases end,
    {
        end = end - 1;
    }
    let ghost rest = s@.skip(start as int);
    proof {
        assert forall|i: int| rest.len() - (s@.len() - end) <= i < rest.len() implies is_whitespace(#[trigger] rest[i]) by {
            assert(rest[i] == s@[i + start]);
        }
        if s@.len() - end < rest.len() {
            assert(rest[rest.len() - (s@.len() - end) - 1] == s@[end - 1]);
        }
        lemma_trailing(rest, s@.len() - end);
    }
    let mut r: Vec<char> = Vec::new();
    let mut k: usize = start;
    while k < end
        invariant
            start <= k <= end,
            end <= s@.len(),
            r@ == s@.subrange(start as int, k as int),
        decreases end - k,
    {
        r.push(s[k]);
        assert(s@.subrange(start as int, k + 1) == s@.subrange(start as int, k as int).push(s@[k as int]));
        k = k + 1;
    }
    assert(r@ =~= rest.take(rest.len() - trailing_whitespace(rest)));
    r
}

/// The position of the first occurrence of `c` in `s`.
pub open spec fn find_char(s: Seq<char>, c: char) -> Option<nat>
    decreases s.len(),
{
    if s.len() == 0 {
        None
    } else if s[0] == c {
        Some(0)
    } else {
        match find_char(s.drop_first(), c) {
            Some(i) => Some(i + 1),
            None => None,
        }
    }
}

/// Locates the first occurrence of a character given that none comes before `k`.
pub proof fn lemma_find_char(s: Seq<char>, c: char, k: int)
    requires
        0 <= k <= s.len(),
        forall|i: int| 0 <= i < k ==> #[trigger] s[i] != c,
    ensures
        k < s.len() && s[k] == c ==> find_char(s, c) == Some(k as nat),
        k == s.len() ==> find_char(s, c) is None,
    decreases k,
{
    if k > 0 {
        assert forall|i: int| 0 <= i < k - 1 implies #[trigger] s.drop_first()[i] != c by {
            assert(s.drop_first()[i] == s[i + 1]);
        }
        lemma_find_char(s.drop_first(), c, k - 1);
    } else if s.len() == 0 {
    }
}

/// The position of the first occurrence of `c` in `s`, if any.
pub fn find_char_exec(s: &[char], c: char) -> (r: Option<usize>)
    ensures
        match r {
            Some(i) => find_char(s@, c) == Some(i as nat) && i < s@.len(),
            None => find_char(s@, c) is None,
        },
{
    let mut k: usize = 0;
    while k < s.len()
        invariant
            k <= s@.len(),
            forall|i: int| 0 <= i < k ==> #[trigger] s@[i] != c,
        decreases s.len() - k,
    {
        if s[k] == c {
            proof { lemma_find_char(s@, c, k as int); }
            return Some(k);
        }
        k = k + 1;
    }
    proof { lemma_find_char(s@, c, k as int); }
    None
}

/// Whether `c` occurs in `s`.
pub fn contains_char(s: &[char], c: char) -> (r: bool)
    ensures
        r == s@.contains(c),
{
    let mut k: usize = 0;
    while k < s.len()
        invariant
            k <= s@.len(),
            forall|i: int| 0 <= i < k ==> #[trigger] s@[i] != c,
        decreases s.len() - k,
    {
        if s[k] == c {
            assert(s@[k as int] == c);
            return true;
        }
        k = k + 1;
    }
    false
}

/// Whether `p` is a prefix of `s`.
pub open spec fn starts_with(s: Seq<char>, p: Seq<char>) -> bool {
    p.len() <= s.len() && s.take(p.len() as int) == p
}

/// Whether `p` is a suffix of `s`.
pub open spec fn ends_with(s: Seq<char>, p: Seq<char>) -> bool {
    p.len() <= s.len() && s.skip(s.len() - p.len()) == p
}

/// Whether `p` occurs as a contiguous run in `s`.
pub open spec fn contains_seq(s: Seq<char>, p: Seq<char>) -> bool {
    exists|i: int| 0 <= i <= s.len() - p.len() && #[trigger] s.subrange(i, i + p.len()) == p
}

/// Whether `p` equals `s` from position `at`.
fn matches_at(s: &[char], p: &[char], at: usize) -> (r: bool)
    requires
        at + p@.len() <= s@.len(),
    ensures
        r == (s@.subrange(at as int, at + p@.len()) == p@),
{
    let n = s.len();
    let mut k: usize = 0;
    while k < p.len()
        invariant
            k <= p@.len(),
            n == s@.len(),
            at + p@.len() <= s@.len(),
            forall|i: int| 0 <= i < k ==> s@[at + i] == p@[i],
        decreases p.len() - k,
    {
        if s[at + k] != p[k] {
            assert(s@.subrange(at as int, at + p@.len())[k as int] != p@[k as int]);
            return false;
        }
        k = k + 1;
    }
    assert(s@.subrange(at as int, at + p@.len()) =~= p@);
    true
}

/// Whether `s` begins with `p`.
pub fn starts_with_chars(s: &[char], p: &[char]) -> (r: bool)
    ensures
        r == starts_with(s@, p@),
{
    if p.len() > s.len() {
        return false;
    }
    let r = matches_at(s, p, 0);
    assert(s@.subrange(0, p@.len() as int) =~= s@.take(p@.len() as int));
    r
}

/// Whether `s` ends with `p`.
pub fn ends_with_chars(s: &[char], p: &[char]) -> (r: bool)
    ensures
        r == ends_with(s@, p@),
{
    if p.len() > s.len() {
        return false;
    }
    let r = matches_at(s, p, s.len() - p.len());
    assert(s@.subrange(s@.len() - p@.len(), s@.len() as int) =~= s@.skip(s@.len() - p@.len()));
    r
}

/// Whether `p` occurs in `s`.
pub fn contains_chars(s: &[char], p: &[char]) -> (r: bool)
    ensures
        r == contains_seq(s@, p@),
{
    if p.len() > s.len() {
        return false;
    }
    if p.len() == 0 {
        assert(s@.subrange(0, 0 + p@.len() as int) =~= p@);
        return true;
    }
    let n = s.len();
    let mut at: usize = 0;
    while at <= n - p.len()
        invariant
            n == s@.len(),
            p@.len() >= 1,
            p@.len() <= s@.len(),
            at <= s@.len() - p@.len() + 1,
            forall|i: int| 0 <= i < at ==> #[trigger] s@.subrange(i, i + p@.len()) != p@,
        decreases s.len() - p.len() + 1 - at,
    {
        if matches_at(s, p, at) {
            return true;
        }
        at = at + 1;
    }
    false
}

/// The ASCII lower-case form of a character; other characters are unchanged.
pub open spec fn ascii_lower(c: char) -> char {
    if 'A' <= c && c <= 'Z' {
        ((c as u32) + 32) as char
    } else {
        c
    }
}

/// Whether a character is an ASCII lower-case letter.
pub open spec fn is_ascii_lowercase(c: char) -> bool {
    'a' <= c && c <= 'z'
}

/// Whether two character sequences are equal ignoring ASCII case.
pub open spec fn eq_ignore_ascii_case(a: Seq<char>, b: Seq<char>) -> bool {
    a.len() == b.len() && forall|i: int| 0 <= i < a.len() ==> ascii_lower(#[trigger] a[i]) == ascii_lower(b[i])
}

/// The ASCII lower-case form of a character.
pub fn ascii_lower_exec(c: char) -> (r: char)
    ensures
        r == ascii_lower(c),
{
    if 'A' <= c && c <= 'Z' {
        ((c as u32) + 32) as u8 as char
    } else {
        c
    }
}

/// Whether two character slices are equal ignoring ASCII case.
pub fn eq_ignore_ascii_case_chars(a: &[char], b: &[char]) -> (r: bool)
    ensures
        r == eq_ignore_ascii_case(a@, b@),
{
    if a.len() != b.len() {
        return false;
    }
    let mut k: usize = 0;
    while k < a.len()
        invariant
            k <= a@.len(),
            a@.len() == b@.len(),
            forall|i: int| 0 <= i < k ==> ascii_lower(#[trigger] a@[i]) == ascii_lower(b@[i]),
        decreases a.len() - k,
    {
        if ascii_lower_exec(a[k]) != ascii_lower_exec(b[k]) {
            return false;
        }
        k = k + 1;
    }
    true
}

/// Whether two character slices are equal.
pub fn chars_equal(a: &[char], b: &[char]) -> (r: bool)
    ensures
        r == (a@ == b@),
{
    if a.len() != b.len() {
        return false;
    }
    let mut k: usize = 0;
    while k < a.len()
        invariant
            k <= a@.len(),
            a@.len() == b@.len(),
            forall|i: int| 0 <= i < k ==> a@[i] == b@[i],
        decreases a.len() - k,
    {
        if a[k] != b[k] {
            return false;
        }
        k = k + 1;
    }
    assert(a@ =~= b@);
    true
}

/// The characters `s[from..to]`.
pub fn slice_chars(s: &[char], from: usize, to: usize) -> (r: Vec<char>)
    requires
        from <= to <= s@.len(),
    ensures
        r@ == s@.subrange(from as int, to as int),
{
    let mut r: Vec<char> = Vec::new();
    let mut k: usize = from;
    while k < to
        invariant
            from <= k <= to,
            to <= s@.len(),
            r@ == s@.subrange(from as int, k as int),
        decreases to - k,
    {
        r.push(s[k]);
        assert(s@.subrange(from as int, k + 1) == s@.subrange(from as int, k as int).push(s@[k as int]));
        k = k + 1;
    }
    r
}

} // verus!
