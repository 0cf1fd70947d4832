use vstd::prelude::*;

verus! {

/// The characters that `char::is_whitespace` accepts: those with the
/// Unicode `White_Space` property.
pub open spec fn is_space(c: char) -> bool {
    ('\u{9}' <= c && c <= '\u{d}') || c == ' ' || c == '\u{85}' || c == '\u{a0}' || c == '\u{1680}'
        || ('\u{2000}' <= c && c <= '\u{200a}') || c == '\u{2028}' || c == '\u{2029}' || c
        == '\u{202f}' || c == '\u{205f}' || c == '\u{3000}'
}

/// Whether `c` is a whitespace character.
pub fn is_space_char(c: char) -> (r: bool)
    ensures
        r == is_space(c),
{
    ('\u{9}' <= c && c <= '\u{d}') || c == ' ' || c == '\u{85}' || c == '\u{a0}' || c == '\u{1680}'
        || ('\u{2000}' <= c && c <= '\u{200a}') || c == '\u{2028}' || c == '\u{2029}' || c
        == '\u{202f}' || c == '\u{205f}' || c == '\u{3000}'
}

/// The end of the `;`-separated segment of `s` that starts at `i`.
pub open spec fn segment_end(s: Seq<char>, i: int) -> int
    decreases s.len() - i,
{
    if i >= s.len() {
        s.len() as int
    } else if s[i] == ';' {
        i
    } else {
        segment_end(s, i + 1)
    }
}

/// The first position in `[i, e)` that is not whitespace, or `e`.
pub open spec fn skip_space(s: Seq<char>, i: int, e: int) -> int
    decreases e - i,
{
    if i >= e {
        e
    } else if is_space(s[i]) {
        skip_space(s, i + 1, e)
    } else {
        i
    }
}

/// The first position in `[i, e)` that holds `=`, if any.
pub open spec fn find_eq(s: Seq<char>, i: int, e: int) -> Option<int>
    decreases e - i,
{
    if i >= e {
        None
    } else if s[i] == '=' {
        Some(i)
    } else {
        find_eq(s, i + 1, e)
    }
}

/// The value of the cookie `name` in the header `s`, scanning segments from
/// position `i`. The first segment that, leading whitespace removed, begins
/// with `name` decides: its value is what follows its first `=`, and is
/// empty when it has none. Without such a segment the value is empty.
pub open spec fn cookie_from(s: Seq<char>, name: Seq<char>, i: int) -> Seq<char>
    decreases s.len() - i,
{
    let e = segment_end(s, i);
    if i < 0 || i > s.len() {
        Seq::empty()
    } else if name.is_prefix_of(s.subrange(skip_space(s, i, e), e)) {
        match find_eq(s, i, e) {
            Some(k) => s.subrange(k + 1, e),
            None => Seq::empty(),
        }
    } else if i <= e < s.len() {
        cookie_from(s, name, e + 1)
    } else {
        Seq::empty()
    }
}

/// The session token a request carries: the value of cookie `name` in its
/// `Cookie` header, empty when there is no header or no such cookie.
pub open spec fn token_of(header: Option<Seq<char>>, name: Seq<char>) -> Seq<char> {
    match header {
        Some(s) => cookie_from(s, name, 0),
        None => Seq::empty(),
    }
}

proof fn lemma_segment_end_bounds(s: Seq<char>, i: int)
    requires
        0 <= i <= s.len(),
    ensures
        i <= segment_end(s, i) <= s.len(),
        segment_end(s, i) < s.len() ==> s[segment_end(s, i)] == ';',
    decreases s.len() - i,
{
    if i < s.len() && s[i] != ';' {
        lemma_segment_end_bounds(s, i + 1);
    }
}

proof fn lemma_skip_space_bounds(s: Seq<char>, i: int, e: int)
    requires
        i <= e,
    ensures
        i <= skip_space(s, i, e) <= e,
    decreases e - i,
{
    if i < e && is_space(s[i]) {
        lemma_skip_space_bounds(s, i + 1, e);
    }
}

proof fn lemma_find_eq_bounds(s: Seq<char>, i: int, e: int)
    ensures
        find_eq(s, i, e) matches Some(k) ==> i <= k < e,
    decreases e - i,
{
    if i < e && s[i] != '=' {
        lemma_find_eq_bounds(s, i + 1, e);
    }
}

/// The end of the segment starting at `i`.
fn find_segment_end(s: &str, n: usize, i: usize) -> (e: usize)
    requires
        n == s@.len(),
        i <= n,
    ensures
        e == segment_end(s@, i as int),
        i <= e <= n,
{
    let mut j = i;
    while j < n && s.get_char(j) != ';'
        invariant
            n == s@.len(),
            i <= j <= n,
            segment_end(s@, i as int) == segment_end(s@, j as int),
        decreases n - j,
    {
        j = j + 1;
    }
    proof {
        lemma_segment_end_bounds(s@, j as int);
    }
    j
}

/// The first non-whitespace position in `[i, e)`, or `e`.
fn find_non_space(s: &str, i: usize, e: usize) -> (t: usize)
    requires
        i <= e <= s@.len(),
    ensures
        t == skip_space(s@, i as int, e as int),
        i <= t <= e,
{
    let mut j = i;
    while j < e && is_space_char(s.get_char(j))
        invariant
            i <= j <= e <= s@.len(),
            skip_space(s@, i as int, e as int) == skip_space(s@, j as int, e as int),
        decreases e - j,
    {
        j = j + 1;
    }
    j
}

/// The first `=` in `[i, e)`.
fn find_eq_sign(s: &str, i: usize, e: usize) -> (k: Option<usize>)
    requires
        i <= e <= s@.len(),
    ensures
        k matches Some(x) ==> find_eq(s@, i as int, e as int) == Some(x as int),
        k is None ==> find_eq(s@, i as int, e as int) is None,
{
    let mut j = i;
    while j < e
        invariant
            i <= j <= e <= s@.len(),
            find_eq(s@, i as int, e as int) == find_eq(s@, j as int, e as int),
        decreases e - j,
    {
        if s.get_char(j) == '=' {
            return Some(j);
        }
        j = j + 1;
    }
    None
}

/// Whether `name` is a prefix of the characters of `s` in `[t, e)`.
fn begins_with_at(s: &str, t: usize, e: usize, name: &str) -> (r: bool)
    requires
        t <= e <= s@.len(),
    ensures
        r == name@.is_prefix_of(s@.subrange(t as int, e as int)),
{
    let ghost seg = s@.subrange(t as int, e as int);
    let m = name.unicode_len();
    if m > e - t {
        return false;
    }
    let mut j: usize = 0;
    while j < m
        invariant
            m == name@.len(),
            m <= e - t,
            t <= e <= s@.len(),
            seg == s@.subrange(t as int, e as int),
            j <= m,
            forall|k: int| 0 <= k < j ==> name@[k] == seg[k],
        decreases m - j,
    {
        if name.get_char(j) != s.get_char(t + j) {
            assert(name@[j as int] != seg[j as int]);
            return false;
        }
        j = j + 1;
    }
    assert(name@ =~= seg.subrange(0, m as int));
    true
}

/// Extracts the session token from a request's `Cookie` header: the value
/// of the first segment that, leading whitespace removed, begins with
/// `cookie_name`. A missing header or cookie gives an empty token, which is
/// passed on as it is rather than refused here.
pub fn session_token(cookie_header: Option<&str>, cookie_name: &str) -> (r: String)
    ensures
        r@ == token_of(
            match cookie_header {
                Some(h) => Some(h@),
                None => None,
            },
            cookie_name@,
        ),
{
    let s = match cookie_header {
        Some(h) => h,
        None => {
            return String::new();
        },
    };
    let n = s.unicode_len();
    let mut i: usize = 0;
    loop
        invariant
            cookie_header == Some(s),
            n == s@.len(),
            i <= n,
            cookie_from(s@, cookie_name@, 0) == cookie_from(s@, cookie_name@, i as int),
        decreases n - i,
    {
        let e = find_segment_end(s, n, i);
        let t = find_non_space(s, i, e);
        proof {
            lemma_segment_end_bounds(s@, i as int);
            lemma_skip_space_bounds(s@, i as int, e as int);
        }
        if begins_with_at(s, t, e, cookie_name) {
            proof {
                lemma_find_eq_bounds(s@, i as int, e as int);
            }
            return match find_eq_sign(s, i, e) {
                Some(k) => String::from_str(s.substring_char(k + 1, e)),
                None => String::new(),
            };
        }
        if e >= n {
            return String::new();
        }
        i = e + 1;
    }
}

} // verus!
