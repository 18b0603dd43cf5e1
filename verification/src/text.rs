//! Character-level string operations used throughout the library.

use vstd::prelude::*;

verus! {

/// The Unicode `White_Space` property, which `char::is_whitespace` and
/// `str::trim` go by.
pub open spec fn is_white(c: char) -> bool {
    let x = c as u32;
    ||| (0x9 <= x && x <= 0xd)
    ||| x == 0x20
    ||| x == 0x85
    ||| x == 0xa0
    ||| x == 0x1680
    ||| (0x2000 <= x && x <= 0x200a)
    ||| x == 0x2028
    ||| x == 0x2029
    ||| x == 0x202f
    ||| x == 0x205f
    ||| x == 0x3000
}

/// `s` without its leading whitespace.
pub open spec fn trim_start_spec(s: Seq<char>) -> Seq<char>
    decreases s.len(),
{
    if s.len() > 0 && is_white(s[0]) {
        trim_start_spec(s.drop_first())
    } else {
        s
    }
}

/// `s` without its trailing whitespace.
pub open spec fn trim_end_spec(s: Seq<char>) -> Seq<char>
    decreases s.len(),
{
    if s.len() > 0 && is_white(s.last()) {
        trim_end_spec(s.drop_last())
    } else {
        s
    }
}

/// `s` without leading and trailing whitespace.
pub open spec fn trimmed(s: Seq<char>) -> Seq<char> {
    trim_end_spec(trim_start_spec(s))
}

pub fn is_whitespace(c: char) -> (b: bool)
    ensures
        b == is_white(c),
{
    let x = c as u32;
    (0x9 <= x && x <= 0xd) || x == 0x20 || x == 0x85 || x == 0xa0 || x == 0x1680 || (0x2000 <= x
        && x <= 0x200a) || x == 0x2028 || x == 0x2029 || x == 0x202f || x == 0x205f || x == 0x3000
}

/// A copy of `s` without leading and trailing whitespace.
pub fn trim(s: &str) -> (r: String)
    ensures
        r@ == trimmed(s@),
{
    let n = s.unicode_len();
    let mut i: usize = 0;
    assert(s@.subrange(0, n as int) =~= s@);
    while i < n && is_whitespace(s.get_char(i))
        invariant
            n == s@.len(),
            i <= n,
            trim_start_spec(s@) == trim_start_spec(s@.subrange(i as int, n as int)),
        decreases n - i,
    {
        assert(s@.subrange(i as int, n as int).drop_first() =~= s@.subrange(i + 1, n as int));
        i = i + 1;
    }
    let ghost t = s@.subrange(i as int, n as int);
    assert(trim_start_spec(s@) == t) by {
        if i < n {
            assert(!is_white(t[0]));
        } else {
            assert(t.len() == 0);
        }
    }
    let mut j: usize = n;
    while j > i && is_whitespace(s.get_char(j - 1))
        invariant
            n == s@.len(),
            i <= j <= n,
            t == s@.subrange(i as int, n as int),
            trim_end_spec(t) == trim_end_spec(s@.subrange(i as int, j as int)),
        decreases j - i,
    {
        assert(s@.subrange(i as int, j as int).drop_last() =~= s@.subrange(i as int, j - 1));
        j = j - 1;
    }
    assert(trim_end_spec(t) == s@.subrange(i as int, j as int)) by {
        if j > i {
            assert(!is_white(s@.subrange(i as int, j as int).last()));
        }
    }
    assert(t =~= s@.subrange(i as int, n as int));
    let piece = s.substring_char(i, j);
    String::from_str(piece)
}


/// `Some(rest)` where `s` is `prefix` followed by `rest`, else `None`.
pub open spec fn strip_prefix_spec(s: Seq<char>, prefix: Seq<char>) -> Option<Seq<char>> {
    if prefix.len() <= s.len() && s.subrange(0, prefix.len() as int) == prefix {
        Some(s.subrange(prefix.len() as int, s.len() as int))
    } else {
        None
    }
}

/// Whether `s` begins with the character `c`.
pub open spec fn starts_with_spec(s: Seq<char>, c: char) -> bool {
    s.len() > 0 && s[0] == c
}

/// The pieces of `s` between occurrences of `sep`, as `str::split` yields them.
pub open spec fn split_on(s: Seq<char>, sep: char) -> Seq<Seq<char>>
    decreases s.len(),
{
    if s.len() == 0 {
        seq![Seq::<char>::empty()]
    } else {
        let init = split_on(s.drop_last(), sep);
        if s.last() == sep {
            init.push(Seq::<char>::empty())
        } else {
            init.update(init.len() - 1, init.last().push(s.last()))
        }
    }
}

/// The first piece of a split is the text before the first separator, or
/// all of the text where there is none; the pieces are more than one
/// exactly where a separator occurs.
pub proof fn lemma_split_first(s: Seq<char>, sep: char, k: int)
    requires
        0 <= k <= s.len(),
        k == s.len() || s[k] == sep,
        forall|j: int| 0 <= j < k ==> s[j] != sep,
    ensures
        split_on(s, sep).len() >= 1,
        split_on(s, sep)[0] == s.subrange(0, k),
        (k < s.len()) ==> split_on(s, sep).len() >= 2,
        (k == s.len()) ==> split_on(s, sep).len() == 1,
    decreases s.len(),
{
    if s.len() == 0 {
        assert(s.subrange(0, 0) =~= Seq::<char>::empty());
    } else {
        let t = s.drop_last();
        if k < s.len() - 1 {
            lemma_split_first(t, sep, k);
            assert(t.subrange(0, k) =~= s.subrange(0, k));
        } else if k == s.len() - 1 {
            assert forall|j: int| 0 <= j < t.len() implies t[j] != sep by {
                assert(t[j] == s[j]);
            }
            lemma_split_first(t, sep, t.len() as int);
            assert(t.subrange(0, t.len() as int) =~= t);
            assert(t =~= s.subrange(0, k));
        } else {
            lemma_split_first(t, sep, t.len() as int);
            assert(t.subrange(0, t.len() as int) =~= t);
            assert(t.push(s.last()) =~= s);
            assert(s.subrange(0, k) =~= s);
        }
    }
}

/// The views of a sequence of strings.
pub open spec fn views(v: Seq<String>) -> Seq<Seq<char>> {
    v.map_values(|x: String| x@)
}

/// Whether `s` starts with the character `c`.
pub fn starts_with_char(s: &str, c: char) -> (b: bool)
    ensures
        b == starts_with_spec(s@, c),
{
    let n = s.unicode_len();
    n > 0 && s.get_char(0) == c
}

/// `s` with `prefix` removed from its front, if `s` begins with it.
pub fn strip_prefix(s: &str, prefix: &str) -> (r: Option<String>)
    ensures
        match r {
            Some(rest) => strip_prefix_spec(s@, prefix@) == Some(rest@),
            None => strip_prefix_spec(s@, prefix@) is None,
        },
{
    let n = s.unicode_len();
    let m = prefix.unicode_len();
    if m > n {
        return None;
    }
    let mut i: usize = 0;
    while i < m
        invariant
            n == s@.len(),
            m == prefix@.len(),
            m <= n,
            i <= m,
            forall|k: int| 0 <= k < i ==> s@[k] == prefix@[k],
        decreases m - i,
    {
        if s.get_char(i) != prefix.get_char(i) {
            assert(s@.subrange(0, m as int)[i as int] != prefix@[i as int]);
            return None;
        }
        i = i + 1;
    }
    assert(s@.subrange(0, m as int) =~= prefix@);
    Some(String::from_str(s.substring_char(m, n)))
}

/// The pieces of `s` separated by `sep`; there is always at least one.
pub fn split(s: &str, sep: char) -> (parts: Vec<String>)
    ensures
        views(parts@) == split_on(s@, sep),
        parts@.len() >= 1,
{
    let n = s.unicode_len();
    let mut parts: Vec<String> = Vec::new();
    let mut start: usize = 0;
    let mut i: usize = 0;
    assert(s@.subrange(0, 0) =~= Seq::<char>::empty());
    while i < n
        invariant
            n == s@.len(),
            start <= i <= n,
            split_on(s@.subrange(0, i as int), sep) =~= views(parts@).push(
                s@.subrange(start as int, i as int),
            ),
        decreases n - i,
    {
        let c = s.get_char(i);
        let ghost prev = s@.subrange(0, i as int);
        assert(s@.subrange(0, i + 1).drop_last() =~= prev);
        assert(s@.subrange(0, i + 1).last() == c);
        if c == sep {
            let piece = String::from_str(s.substring_char(start, i));
            parts.push(piece);
            start = i + 1;
            assert(s@.subrange(start as int, i + 1) =~= Seq::<char>::empty());
        } else {
            assert(s@.subrange(start as int, i + 1) =~= s@.subrange(start as int, i as int).push(c));
        }
        i = i + 1;
    }
    let last = String::from_str(s.substring_char(start, n));
    parts.push(last);
    assert(s@.subrange(0, n as int) =~= s@);
    assert(views(parts@) =~= split_on(s@, sep));
    parts
}

/// Whether two string slices hold the same characters.
pub fn str_eq(a: &str, b: &str) -> (r: bool)
    ensures
        r == (a@ == b@),
{
    let n = a.unicode_len();
    let m = b.unicode_len();
    if n != m {
        return false;
    }
    let mut i: usize = 0;
    while i < n
        invariant
            n == a@.len(),
            m == b@.len(),
            n == m,
            i <= n,
            forall|k: int| 0 <= k < i ==> a@[k] == b@[k],
        decreases n - i,
    {
        if a.get_char(i) != b.get_char(i) {
            return false;
        }
        i = i + 1;
    }
    assert(a@ =~= b@);
    true
}

/// Unicode lowercase mapping of a string, as `str::to_lowercase` computes it.
pub uninterp spec fn lowercase(s: Seq<char>) -> Seq<char>;

/// ASCII lowercase of one character.
pub open spec fn ascii_lower(c: char) -> char {
    if 'A' <= c && c <= 'Z' {
        ((c as u32) + 32) as char
    } else {
        c
    }
}

/// Whether every character of `s` is ASCII.
pub open spec fn all_ascii(s: Seq<char>) -> bool {
    forall|i: int| 0 <= i < s.len() ==> (s[i] as u32) < 128
}

/// Calls `str::to_lowercase`. Its result is named `lowercase`; for an
/// all-ASCII string the contract also states that it maps `A`..`Z` to
/// `a`..`z` and keeps every other character, as the std documentation says.
#[verifier::external_body]
pub(crate) fn to_lowercase(s: &str) -> (r: String)
    ensures
        r@ == lowercase(s@),
        all_ascii(s@) ==> r@ == s@.map_values(|c: char| ascii_lower(c)),
{
    s.to_lowercase()
}

} // verus!
