//! Character-level text utilities shared by the pipeline.
//!
//! Strings are handled as sequences of Unicode scalar values (`char`), which is
//! what `str`'s view is in Verus.
use vstd::prelude::*;

verus! {

broadcast use vstd::string::group_string_axioms;

/// The Unicode `White_Space` property, which is what `char::is_whitespace` tests.
pub open spec fn is_white_space(c: char) -> bool {
    let u = c as u32;
    ||| 0x09 <= u <= 0x0d
    ||| u == 0x20
    ||| u == 0x85
    ||| u == 0xa0
    ||| u == 0x1680
    ||| 0x2000 <= u <= 0x200a
    ||| u == 0x2028
    ||| u == 0x2029
    ||| u == 0x202f
    ||| u == 0x205f
    ||| u == 0x3000
}

/// `char::is_whitespace`: true exactly on the code points of Unicode `White_Space`.
#[verifier::external_body]
pub(crate) fn char_is_whitespace(c: char) -> (b: bool)
    ensures
        b == is_white_space(c),
{
    c.is_whitespace()
}

/// What `str::to_lowercase` returns for a string (Unicode `Lowercase` mapping,
/// including its context-sensitive rules).
pub uninterp spec fn lowercase_of(s: Seq<char>) -> Seq<char>;

/// `str::to_lowercase`; the result is named by `lowercase_of`.
#[verifier::external_body]
pub(crate) fn to_lowercase(s: &str) -> (r: String)
    ensures
        r@ == lowercase_of(s@),
{
    s.to_lowercase()
}

/// `String::push`: appends one character.
#[verifier::external_body]
pub(crate) fn push_char(s: &mut String, c: char)
    ensures
        final(s)@ == old(s)@.push(c),
{
    s.push(c)
}

/// Copies the characters of a string slice into a vector.
pub fn chars_of(s: &str) -> (v: Vec<char>)
    ensures
        v@ == s@,
{
    let mut v: Vec<char> = Vec::new();
    for c in it: s.chars()
        invariant
            it.seq() == s@,
            v@ == s@.take(it.index() as int),
    {
        v.push(c);
    }
    v
}

/// Builds a `String` holding exactly the given characters.
pub fn string_from_chars(v: &Vec<char>) -> (s: String)
    ensures
        s@ == v@,
{
    let mut s = String::new();
    let mut i: usize = 0;
    while i < v.len()
        invariant
            i <= v.len(),
            s@ == v@.take(i as int),
        decreases v.len() - i,
    {
        push_char(&mut s, v[i]);
        assert(v@.take(i + 1) == v@.take(i as int).push(v@[i as int]));
        i = i + 1;
    }
    assert(v@.take(v@.len() as int) == v@);
    s
}

/// Index of the first non-white-space character at or after `from`
/// (the length of `s` when there is none).
pub open spec fn first_non_ws_from(s: Seq<char>, from: int) -> int
    decreases s.len() - from,
{
    if from >= s.len() {
        s.len() as int
    } else if !is_white_space(s[from]) {
        from
    } else {
        first_non_ws_from(s, from + 1)
    }
}

/// Index of the first white-space character at or after `from`
/// (the length of `s` when there is none).
pub open spec fn first_ws_from(s: Seq<char>, from: int) -> int
    decreases s.len() - from,
{
    if from >= s.len() {
        s.len() as int
    } else if is_white_space(s[from]) {
        from
    } else {
        first_ws_from(s, from + 1)
    }
}

/// One past the last non-white-space character before `upto` (0 when there is none).
pub open spec fn last_non_ws_before(s: Seq<char>, upto: int) -> int
    decreases upto,
{
    if upto <= 0 {
        0
    } else if !is_white_space(s[upto - 1]) {
        upto
    } else {
        last_non_ws_before(s, upto - 1)
    }
}

/// `str::trim`: the text without leading and trailing white space.
pub open spec fn trim(s: Seq<char>) -> Seq<char> {
    let a = first_non_ws_from(s, 0);
    let b = last_non_ws_before(s, s.len() as int);
    if a < b {
        s.subrange(a, b)
    } else {
        Seq::empty()
    }
}

/// The first white-space separated word of `s`, as `split_whitespace().next()` gives it.
pub open spec fn first_token(s: Seq<char>) -> Option<Seq<char>> {
    let a = first_non_ws_from(s, 0);
    if a >= s.len() {
        None
    } else {
        Some(s.subrange(a, first_ws_from(s, a)))
    }
}

/// `needle` occurs in `hay` as a contiguous run.
pub open spec fn occurs_in(hay: Seq<char>, needle: Seq<char>) -> bool {
    exists|i: int| 0 <= i <= hay.len() - needle.len() && #[trigger] hay.subrange(i, i + needle.len()) == needle
}

pub proof fn lemma_first_non_ws_bounds(s: Seq<char>, from: int)
    requires
        0 <= from,
    ensures
        from <= s.len() ==> from <= first_non_ws_from(s, from) <= s.len(),
        from > s.len() ==> first_non_ws_from(s, from) == s.len(),
        first_non_ws_from(s, from) < s.len() ==> !is_white_space(s[first_non_ws_from(s, from)]),
        forall|k: int| from <= k < first_non_ws_from(s, from) ==> is_white_space(#[trigger] s[k]),
    decreases s.len() - from,
{
    if from < s.len() && is_white_space(s[from]) {
        lemma_first_non_ws_bounds(s, from + 1);
    }
}

pub proof fn lemma_first_ws_bounds(s: Seq<char>, from: int)
    requires
        0 <= from <= s.len(),
    ensures
        from <= first_ws_from(s, from) <= s.len(),
        first_ws_from(s, from) < s.len() ==> is_white_space(s[first_ws_from(s, from)]),
        forall|k: int| from <= k < first_ws_from(s, from) ==> !is_white_space(#[trigger] s[k]),
    decreases s.len() - from,
{
    if from < s.len() && !is_white_space(s[from]) {
        lemma_first_ws_bounds(s, from + 1);
    }
}

pub proof fn lemma_last_non_ws_bounds(s: Seq<char>, upto: int)
    requires
        0 <= upto <= s.len(),
    ensures
        0 <= last_non_ws_before(s, upto) <= upto,
        last_non_ws_before(s, upto) > 0 ==> !is_white_space(s[last_non_ws_before(s, upto) - 1]),
        forall|k: int| last_non_ws_before(s, upto) <= k < upto ==> is_white_space(#[trigger] s[k]),
    decreases upto,
{
    if upto > 0 && is_white_space(s[upto - 1]) {
        lemma_last_non_ws_bounds(s, upto - 1);
    }
}

/// Index of the first non-white-space character of `v` at or after `from`.
pub fn skip_white_space(v: &Vec<char>, from: usize) -> (r: usize)
    requires
        from <= v.len(),
    ensures
        r as int == first_non_ws_from(v@, from as int),
        from <= r <= v.len(),
{
    let mut i = from;
    while i < v.len() && char_is_whitespace(v[i])
        invariant
            from <= i <= v.len(),
            first_non_ws_from(v@, i as int) == first_non_ws_from(v@, from as int),
        decreases v.len() - i,
    {
        i = i + 1;
    }
    i
}

/// Index of the first white-space character of `v` at or after `from`.
pub fn skip_word(v: &Vec<char>, from: usize) -> (r: usize)
    requires
        from <= v.len(),
    ensures
        r as int == first_ws_from(v@, from as int),
        from <= r <= v.len(),
{
    let mut i = from;
    while i < v.len() && !char_is_whitespace(v[i])
        invariant
            from <= i <= v.len(),
            first_ws_from(v@, i as int) == first_ws_from(v@, from as int),
        decreases v.len() - i,
    {
        i = i + 1;
    }
    i
}

/// The characters of `v` from `start` (inclusive) to `end` (exclusive).
pub fn slice_chars(v: &Vec<char>, start: usize, end: usize) -> (r: Vec<char>)
    requires
        start <= end <= v.len(),
    ensures
        r@ == v@.subrange(start as int, end as int),
{
    let mut r: Vec<char> = Vec::new();
    let mut i = start;
    while i < end
        invariant
            start <= i <= end <= v.len(),
            r@ == v@.subrange(start as int, i as int),
        decreases end - i,
    {
        r.push(v[i]);
        i = i + 1;
    }
    r
}

/// `str::trim` on a character vector.
pub fn trim_chars(v: &Vec<char>) -> (r: Vec<char>)
    ensures
        r@ == trim(v@),
{
    let a = skip_white_space(v, 0);
    let mut b = v.len();
    while b > 0 && char_is_whitespace(v[b - 1])
        invariant
            b <= v.len(),
            last_non_ws_before(v@, b as int) == last_non_ws_before(v@, v@.len() as int),
        decreases b,
    {
        b = b - 1;
    }
    if a < b {
        slice_chars(v, a, b)
    } else {
        Vec::new()
    }
}

/// `str::trim`, returning an owned string.
pub fn trim_str(s: &str) -> (r: String)
    ensures
        r@ == trim(s@),
{
    let v = chars_of(s);
    let t = trim_chars(&v);
    string_from_chars(&t)
}

/// The first white-space separated word of `v`, if any.
pub fn first_token_chars(v: &Vec<char>) -> (r: Option<Vec<char>>)
    ensures
        match r {
            Some(t) => first_token(v@) == Some(t@),
            None => first_token(v@) is None,
        },
{
    let a = skip_white_space(v, 0);
    if a >= v.len() {
        None
    } else {
        let b = skip_word(v, a);
        Some(slice_chars(v, a, b))
    }
}

/// Whether two character vectors hold the same characters.
pub fn chars_eq(a: &Vec<char>, b: &Vec<char>) -> (r: bool)
    ensures
        r == (a@ == b@),
{
    if a.len() != b.len() {
        return false;
    }
    let mut i: usize = 0;
    while i < a.len()
        invariant
            a.len() == b.len(),
            i <= a.len(),
            forall|k: int| 0 <= k < i ==> a@[k] == b@[k],
        decreases a.len() - i,
    {
        if a[i] != b[i] {
            return false;
        }
        i = i + 1;
    }
    assert(a@ =~= b@);
    true
}

/// Whether `needle` occurs in `hay` as a contiguous run.
pub fn contains_chars(hay: &Vec<char>, needle: &Vec<char>) -> (r: bool)
    ensures
        r == occurs_in(hay@, needle@),
{
    if needle.len() > hay.len() {
        return false;
    }
    let last = hay.len() - needle.len();
    let mut i: usize = 0;
    while i <= last
        invariant
            last == hay.len() - needle.len(),
            i <= last + 1,
            forall|j: int| 0 <= j < i ==> #[trigger] hay@.subrange(j, j + needle@.len()) != needle@,
        decreases last + 1 - i,
    {
        let mut k: usize = 0;
        let mut same = true;
        while k < needle.len()
            invariant
                i <= last,
                last == hay.len() - needle.len(),
                k <= needle.len(),
                same == (forall|m: int| 0 <= m < k ==> hay@[i + m] == needle@[m]),
            decreases needle.len() - k,
        {
            if hay[i + k] != needle[k] {
                same = false;
            }
            k = k + 1;
        }
        if same {
            assert(hay@.subrange(i as int, i + needle@.len()) =~= needle@);
            return true;
        }
        assert(hay@.subrange(i as int, i + needle@.len()) != needle@) by {
            let m = choose|m: int| 0 <= m < needle.len() && hay@[i + m] != needle@[m];
            assert(hay@.subrange(i as int, i + needle@.len())[m] == hay@[i + m]);
        }
        i = i + 1;
    }
    false
}

} // verus!
