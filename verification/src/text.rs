use vstd::prelude::*;
use vstd::string::*;

verus! {

/// Whether `c` has the Unicode property White_Space, as `char::is_whitespace`
/// reports it.
pub uninterp spec fn is_white_space(c: char) -> bool;

/// `char::is_whitespace` of the standard library. The result is the
/// character's White_Space property, which this library does not spell out.
#[verifier::external_body]
pub(crate) fn char_is_whitespace(c: char) -> (white: bool)
    ensures
        white == is_white_space(c),
{
    c.is_whitespace()
}

/// The characters of a string, in order.
pub fn chars_of(s: &str) -> (chars: Vec<char>)
    ensures
        chars@ == s@,
{
    let mut chars: Vec<char> = Vec::new();
    for c in it: s.chars()
        invariant
            it.seq() == s@,
            chars@ == s@.take(it.index()),
    {
        chars.push(c);
    }
    chars
}

/// `pattern` stands in `text` at position `at`.
pub open spec fn matches_at(text: Seq<char>, at: int, pattern: Seq<char>) -> bool {
    &&& 0 <= at
    &&& at + pattern.len() <= text.len()
    &&& forall|k: int| 0 <= k < pattern.len() ==> text[at + k] == pattern[k]
}

/// The first position at or after `from` where `pattern` stands in `text`.
pub open spec fn find_from(text: Seq<char>, pattern: Seq<char>, from: int) -> Option<int>
    decreases text.len() + 1 - from,
{
    if from < 0 || from + pattern.len() > text.len() {
        None
    } else if matches_at(text, from, pattern) {
        Some(from)
    } else {
        find_from(text, pattern, from + 1)
    }
}

/// The first position where `pattern` stands in `text`.
pub open spec fn spec_find(text: Seq<char>, pattern: Seq<char>) -> Option<int> {
    find_from(text, pattern, 0)
}

/// `pattern` stands somewhere in `text`.
pub open spec fn spec_contains(text: Seq<char>, pattern: Seq<char>) -> bool {
    spec_find(text, pattern) is Some
}

/// `text` ends with `suffix`.
pub open spec fn spec_ends_with(text: Seq<char>, suffix: Seq<char>) -> bool {
    suffix.len() <= text.len() && matches_at(text, text.len() - suffix.len(), suffix)
}

/// The first position at or after `from` where `text` holds `c`.
pub open spec fn find_char_from(text: Seq<char>, c: char, from: int) -> Option<int>
    decreases text.len() - from,
{
    if from < 0 || from >= text.len() {
        None
    } else if text[from] == c {
        Some(from)
    } else {
        find_char_from(text, c, from + 1)
    }
}

/// The first position where `text` holds `c`.
pub open spec fn spec_find_char(text: Seq<char>, c: char) -> Option<int> {
    find_char_from(text, c, 0)
}

/// What the search returns is the first match; where it returns nothing,
/// `pattern` stands nowhere at or after `from`.
pub proof fn lemma_find_from(text: Seq<char>, pattern: Seq<char>, from: int)
    requires
        0 <= from,
    ensures
        match find_from(text, pattern, from) {
            Some(i) => {
                &&& from <= i
                &&& matches_at(text, i, pattern)
                &&& forall|j: int| from <= j < i ==> !matches_at(text, j, pattern)
            },
            None => forall|j: int| from <= j ==> !matches_at(text, j, pattern),
        },
    decreases text.len() + 1 - from,
{
    if from + pattern.len() > text.len() {
    } else if matches_at(text, from, pattern) {
    } else {
        lemma_find_from(text, pattern, from + 1);
    }
}

/// A text contains a pattern exactly where the pattern stands at some
/// position of it.
pub proof fn lemma_contains(text: Seq<char>, pattern: Seq<char>)
    ensures
        spec_contains(text, pattern) <==> exists|i: int| matches_at(text, i, pattern),
{
    lemma_find_from(text, pattern, 0);
    if spec_contains(text, pattern) {
        assert(matches_at(text, spec_find(text, pattern)->0, pattern));
    }
}

/// What the search returns is the first occurrence; where it returns
/// nothing, `c` occurs nowhere at or after `from`.
pub proof fn lemma_find_char_from(text: Seq<char>, c: char, from: int)
    requires
        0 <= from,
    ensures
        match find_char_from(text, c, from) {
            Some(i) => {
                &&& from <= i < text.len()
                &&& text[i] == c
                &&& forall|j: int| from <= j < i ==> text[j] != c
            },
            None => forall|j: int| from <= j < text.len() ==> text[j] != c,
        },
    decreases text.len() - from,
{
    if from >= text.len() {
    } else if text[from] == c {
    } else {
        lemma_find_char_from(text, c, from + 1);
    }
}

/// Whether `pattern` stands in `text` at position `at`.
pub fn is_match_at(text: &Vec<char>, at: usize, pattern: &Vec<char>) -> (matched: bool)
    ensures
        matched == matches_at(text@, at as int, pattern@),
{
    let n: usize = text.len();
    let m: usize = pattern.len();
    if at > n || m > n - at {
        return false;
    }
    let mut k: usize = 0;
    while k < m
        invariant
            k <= m,
            m == pattern@.len(),
            n == text@.len(),
            at + m <= n,
            forall|j: int| 0 <= j < k ==> text@[at + j] == pattern@[j],
        decreases m - k,
    {
        if text[at + k] != pattern[k] {
            return false;
        }
        k += 1;
    }
    true
}

/// The first position where `pattern` stands in `text`, if there is one.
pub fn find(text: &Vec<char>, pattern: &Vec<char>) -> (found: Option<usize>)
    ensures
        match found {
            Some(i) => spec_find(text@, pattern@) == Some(i as int) && i + pattern@.len()
                <= text@.len(),
            None => spec_find(text@, pattern@) is None,
        },
        match found {
            Some(i) => matches_at(text@, i as int, pattern@) && forall|j: int|
                0 <= j < i ==> !matches_at(text@, j, pattern@),
            None => forall|j: int| 0 <= j ==> !matches_at(text@, j, pattern@),
        },
{
    proof {
        lemma_find_from(text@, pattern@, 0);
    }
    let n: usize = text.len();
    let m: usize = pattern.len();
    if m > n {
        return None;
    }
    let last: usize = n - m;
    let mut i: usize = 0;
    while i <= last
        invariant
            i <= last + 1,
            last == n - m,
            n == text@.len(),
            m == pattern@.len(),
            m <= n,
            spec_find(text@, pattern@) == find_from(text@, pattern@, i as int),
        decreases last + 1 - i,
    {
        if is_match_at(text, i, pattern) {
            proof {
                lemma_find_from(text@, pattern@, 0);
            }
            return Some(i);
        }
        if i == last {
            assert(find_from(text@, pattern@, i as int + 1) is None);
            proof {
                lemma_find_from(text@, pattern@, 0);
            }
            return None;
        }
        i += 1;
    }
    None
}

/// Whether `pattern` stands somewhere in `text`.
pub fn contains(text: &Vec<char>, pattern: &Vec<char>) -> (found: bool)
    ensures
        found == spec_contains(text@, pattern@),
{
    find(text, pattern).is_some()
}

/// Whether `text` ends with `suffix`.
pub fn ends_with(text: &Vec<char>, suffix: &Vec<char>) -> (ends: bool)
    ensures
        ends == spec_ends_with(text@, suffix@),
{
    if suffix.len() > text.len() {
        false
    } else {
        is_match_at(text, text.len() - suffix.len(), suffix)
    }
}

/// The first position at or after `from` where `text` holds `c`, if there is
/// one.
pub fn find_char(text: &Vec<char>, c: char, from: usize) -> (found: Option<usize>)
    ensures
        match found {
            Some(i) => from <= i < text@.len() && spec_find_char(text@.skip(from as int), c)
                == Some(i - from),
            None => from <= text@.len() ==> spec_find_char(text@.skip(from as int), c) is None,
        },
        from > text@.len() ==> found is None,
        match found {
            Some(i) => text@[i as int] == c && forall|j: int| from <= j < i ==> text@[j] != c,
            None => forall|j: int| from <= j < text@.len() ==> text@[j] != c,
        },
{
    if from > text.len() {
        return None;
    }
    let ghost rest = text@.skip(from as int);
    let mut i: usize = from;
    while i < text.len()
        invariant
            from <= i <= text@.len(),
            rest == text@.skip(from as int),
            spec_find_char(rest, c) == find_char_from(rest, c, i - from),
        decreases text@.len() - i,
    {
        assert(rest[i - from] == text@[i as int]);
        if text[i] == c {
            proof {
                lemma_find_char_from(rest, c, 0);
                assert forall|j: int| from <= j < i implies text@[j] != c by {
                    assert(rest[j - from] == text@[j]);
                }
            }
            return Some(i);
        }
        i += 1;
    }
    proof {
        lemma_find_char_from(rest, c, 0);
        assert forall|j: int| from <= j < text@.len() implies text@[j] != c by {
            assert(rest[j - from] == text@[j]);
        }
    }
    None
}

/// `c` in lower case where it is an ASCII capital, else `c` itself.
pub open spec fn spec_ascii_lower(c: char) -> char {
    if 'A' <= c && c <= 'Z' {
        ((c as u8) + 32) as char
    } else {
        c
    }
}

#[verifier::when_used_as_spec(spec_ascii_lower)]
pub fn ascii_lower(c: char) -> (lower: char)
    ensures
        lower == spec_ascii_lower(c),
{
    if c >= 'A' && c <= 'Z' {
        ((c as u8) + 32) as char
    } else {
        c
    }
}

/// `text` with its ASCII capitals in lower case.
pub open spec fn spec_ascii_lowercase(text: Seq<char>) -> Seq<char> {
    Seq::new(text.len(), |i: int| spec_ascii_lower(text[i]))
}

pub fn ascii_lowercase(text: &Vec<char>) -> (lower: Vec<char>)
    ensures
        lower@ == spec_ascii_lowercase(text@),
{
    let mut lower: Vec<char> = Vec::new();
    let mut i: usize = 0;
    while i < text.len()
        invariant
            i <= text@.len(),
            lower@.len() == i,
            forall|j: int| 0 <= j < i ==> lower@[j] == spec_ascii_lower(text@[j]),
        decreases text@.len() - i,
    {
        lower.push(ascii_lower(text[i]));
        i += 1;
    }
    assert(lower@ =~= spec_ascii_lowercase(text@));
    lower
}

/// `text` without the white space it starts with.
pub open spec fn trim_front(text: Seq<char>) -> Seq<char>
    decreases text.len(),
{
    if text.len() > 0 && is_white_space(text[0]) {
        trim_front(text.drop_first())
    } else {
        text
    }
}

/// `text` without the white space it ends with.
pub open spec fn trim_back(text: Seq<char>) -> Seq<char>
    decreases text.len(),
{
    if text.len() > 0 && is_white_space(text.last()) {
        trim_back(text.drop_last())
    } else {
        text
    }
}

/// `text` without the white space at either end.
pub open spec fn spec_trim(text: Seq<char>) -> Seq<char> {
    trim_back(trim_front(text))
}

/// The part of `text` between `from` and `upto` without the white space at
/// either end of it, as the positions where what is left starts and ends.
pub(crate) fn trim_range(text: &Vec<char>, from: usize, upto: usize) -> (range: (usize, usize))
    requires
        from <= upto <= text@.len(),
    ensures
        from <= range.0 <= range.1 <= upto,
        text@.subrange(range.0 as int, range.1 as int) == spec_trim(
            text@.subrange(from as int, upto as int),
        ),
{
    let mut start: usize = from;
    while start < upto && char_is_whitespace(text[start])
        invariant
            from <= start <= upto,
            upto <= text@.len(),
            trim_front(text@.subrange(from as int, upto as int)) == trim_front(
                text@.subrange(start as int, upto as int),
            ),
        decreases upto - start,
    {
        assert(text@.subrange(start as int, upto as int).drop_first() =~= text@.subrange(
            start as int + 1,
            upto as int,
        ));
        start += 1;
    }
    assert(trim_front(text@.subrange(start as int, upto as int)) == text@.subrange(
        start as int,
        upto as int,
    ));
    let mut end: usize = upto;
    while end > start && char_is_whitespace(text[end - 1])
        invariant
            start <= end <= upto,
            upto <= text@.len(),
            trim_back(text@.subrange(start as int, upto as int)) == trim_back(
                text@.subrange(start as int, end as int),
            ),
        decreases end - start,
    {
        assert(text@.subrange(start as int, end as int).drop_last() =~= text@.subrange(
            start as int,
            end as int - 1,
        ));
        end -= 1;
    }
    assert(trim_back(text@.subrange(start as int, end as int)) == text@.subrange(
        start as int,
        end as int,
    ));
    (start, end)
}

} // verus!
