//! Small operations on text that the rules of this library are written in:
//! first occurrences, the pieces around a separator, and sub-texts.

use vstd::prelude::*;
use vstd::string::*;

verus! {

/// The index of the first `c` in `s`, or the length of `s` if it holds none.
pub open spec fn spec_first_index(s: Seq<char>, c: char) -> int
    decreases s.len(),
{
    if s.len() == 0 {
        0
    } else if s[0] == c {
        0
    } else {
        1 + spec_first_index(s.drop_first(), c)
    }
}

/// What stands before the first `c` in `s`: all of `s` if it holds none.
pub open spec fn spec_head(s: Seq<char>, c: char) -> Seq<char> {
    s.take(spec_first_index(s, c))
}

/// What stands behind the first `c` in `s`, if it holds one.
pub open spec fn spec_tail(s: Seq<char>, c: char) -> Option<Seq<char>> {
    if spec_first_index(s, c) < s.len() {
        Some(s.skip(spec_first_index(s, c) + 1))
    } else {
        None
    }
}

/// Whether `needle` stands in `hay` at index `at`.
pub open spec fn spec_occurs_at(hay: Seq<char>, needle: Seq<char>, at: int) -> bool {
    0 <= at && at + needle.len() <= hay.len() && hay.subrange(at, at + needle.len()) == needle
}

/// Whether `needle` stands somewhere in `hay`.
pub open spec fn spec_contains(hay: Seq<char>, needle: Seq<char>) -> bool {
    exists|at: int| spec_occurs_at(hay, needle, at)
}

/// `spec_first_index` is the least index that holds `c`, and the length if
/// none does.
pub proof fn lemma_first_index(s: Seq<char>, c: char)
    ensures
        0 <= spec_first_index(s, c) <= s.len(),
        forall|j: int| 0 <= j < spec_first_index(s, c) ==> s[j] != c,
        spec_first_index(s, c) < s.len() ==> s[spec_first_index(s, c)] == c,
    decreases s.len(),
{
    if s.len() > 0 && s[0] != c {
        let rest = s.drop_first();
        lemma_first_index(rest, c);
        assert forall|j: int| 0 <= j < spec_first_index(s, c) implies s[j] != c by {
            if j > 0 {
                assert(s[j] == rest[j - 1]);
            }
        }
    }
}

/// An index before which no `c` stands, and which holds `c` or is the
/// length, is the first index of `c`.
pub proof fn lemma_first_index_unique(s: Seq<char>, c: char, i: int)
    requires
        0 <= i <= s.len(),
        forall|j: int| 0 <= j < i ==> s[j] != c,
        i < s.len() ==> s[i] == c,
    ensures
        spec_first_index(s, c) == i,
{
    lemma_first_index(s, c);
}

/// The text of one decimal digit.
pub open spec fn spec_digit(d: nat) -> Seq<char> {
    if d == 0 {
        "0"@
    } else if d == 1 {
        "1"@
    } else if d == 2 {
        "2"@
    } else if d == 3 {
        "3"@
    } else if d == 4 {
        "4"@
    } else if d == 5 {
        "5"@
    } else if d == 6 {
        "6"@
    } else if d == 7 {
        "7"@
    } else if d == 8 {
        "8"@
    } else {
        "9"@
    }
}

/// The number `n` written in decimal digits, without leading zeros.
pub open spec fn spec_decimal(n: nat) -> Seq<char>
    decreases n,
{
    if n < 10 {
        spec_digit(n)
    } else {
        spec_decimal(n / 10) + spec_digit(n % 10)
    }
}

/// The text of one decimal digit.
fn digit(d: u32) -> (r: &'static str)
    requires
        d < 10,
    ensures
        r@ == spec_digit(d as nat),
{
    if d == 0 {
        "0"
    } else if d == 1 {
        "1"
    } else if d == 2 {
        "2"
    } else if d == 3 {
        "3"
    } else if d == 4 {
        "4"
    } else if d == 5 {
        "5"
    } else if d == 6 {
        "6"
    } else if d == 7 {
        "7"
    } else if d == 8 {
        "8"
    } else {
        "9"
    }
}

/// The number `n` written in decimal digits.
pub fn decimal(n: u32) -> (r: String)
    ensures
        r@ == spec_decimal(n as nat),
    decreases n,
{
    if n < 10 {
        String::from_str(digit(n))
    } else {
        let mut text = decimal(n / 10);
        text.append(digit(n % 10));
        text
    }
}

/// Whether `c` is white space: whether it is one of the characters that
/// Unicode gives the property `White_Space`. These are the controls from tab
/// to carriage return and next line, the spaces of all widths, and the line
/// and paragraph separators.
pub open spec fn spec_is_white_space(c: char) -> bool {
    let code = c as u32;
    ||| 0x0009 <= code <= 0x000d
    ||| code == 0x0020
    ||| code == 0x0085
    ||| code == 0x00a0
    ||| code == 0x1680
    ||| 0x2000 <= code <= 0x200a
    ||| code == 0x2028
    ||| code == 0x2029
    ||| code == 0x202f
    ||| code == 0x205f
    ||| code == 0x3000
}

/// Whether `c` is white space.
pub fn is_white_space(c: char) -> (r: bool)
    ensures
        r == spec_is_white_space(c),
{
    let code = c as u32;
    (0x0009 <= code && code <= 0x000d) || code == 0x0020 || code == 0x0085 || code == 0x00a0
        || code == 0x1680 || (0x2000 <= code && code <= 0x200a) || code == 0x2028 || code
        == 0x2029 || code == 0x202f || code == 0x205f || code == 0x3000
}

/// How many characters of white space `text` starts with.
pub open spec fn spec_leading_space(text: Seq<char>) -> int
    decreases text.len(),
{
    if text.len() == 0 || !spec_is_white_space(text[0]) {
        0
    } else {
        1 + spec_leading_space(text.drop_first())
    }
}

/// How many characters of white space `text` ends with.
pub open spec fn spec_trailing_space(text: Seq<char>) -> int
    decreases text.len(),
{
    if text.len() == 0 || !spec_is_white_space(text.last()) {
        0
    } else {
        1 + spec_trailing_space(text.drop_last())
    }
}

/// `text` without the white space at its start and at its end.
pub open spec fn spec_trim(text: Seq<char>) -> Seq<char> {
    let start = spec_leading_space(text);
    if start >= text.len() {
        Seq::empty()
    } else {
        text.subrange(start, text.len() - spec_trailing_space(text))
    }
}

/// `text` without the white space at its start and at its end.
pub fn trim(text: &str) -> (r: String)
    ensures
        r@ == spec_trim(text@),
{
    let v = chars_of(text);
    let mut start: usize = 0;
    assert(v@.skip(0) =~= v@);
    while start < v.len() && is_white_space(v[start])
        invariant
            start <= v.len(),
            spec_leading_space(v@) == start + spec_leading_space(v@.skip(start as int)),
        decreases v.len() - start,
    {
        assert(v@.skip(start as int).drop_first() =~= v@.skip(start + 1));
        start += 1;
    }
    if start == v.len() {
        proof {
            reveal_strlit("");
        }
        return String::from_str("");
    }
    let mut end: usize = v.len();
    while end > start && is_white_space(v[end - 1])
        invariant
            start < end <= v.len(),
            !spec_is_white_space(v@[start as int]),
            spec_trailing_space(v@) == v.len() - end + spec_trailing_space(v@.take(end as int)),
        decreases end,
    {
        assert(v@.take(end as int).drop_last() =~= v@.take(end - 1));
        end -= 1;
    }
    text.substring_char(start, end).to_owned()
}

/// The characters of `s`.
pub fn chars_of(s: &str) -> (v: Vec<char>)
    ensures
        v@ == s@,
{
    let mut v: Vec<char> = Vec::new();
    for c in it: s.chars()
        invariant
            v@ == it.seq().take(it.index() as int),
            it.seq() == s@,
    {
        v.push(c);
    }
    v
}

/// Whether two texts are the same.
pub fn same_text(a: &str, b: &str) -> (r: bool)
    ensures
        r == (a@ == b@),
{
    String::from_str(a) == String::from_str(b)
}

/// The index of the first `c` in `v` at or after `from`, or the length of
/// `v` if there is none.
pub(crate) fn first_index_from(v: &Vec<char>, c: char, from: usize) -> (r: usize)
    requires
        from <= v.len(),
    ensures
        from <= r <= v.len(),
        r - from == spec_first_index(v@.skip(from as int), c),
{
    let mut i: usize = from;
    while i < v.len() && v[i] != c
        invariant
            from <= i <= v.len(),
            forall|j: int| from <= j < i ==> v@[j] != c,
        decreases v.len() - i,
    {
        i += 1;
    }
    proof {
        lemma_first_index_unique(v@.skip(from as int), c, i - from);
    }
    i
}

/// Whether the characters of `v` from `from` up to `to` are those of `w`
/// from `w_from` up to `w_to`.
pub(crate) fn same_range(
    v: &Vec<char>,
    from: usize,
    to: usize,
    w: &Vec<char>,
    w_from: usize,
    w_to: usize,
) -> (r: bool)
    requires
        from <= to <= v.len(),
        w_from <= w_to <= w.len(),
    ensures
        r == (v@.subrange(from as int, to as int) == w@.subrange(w_from as int, w_to as int)),
{
    let n = to - from;
    if w_to - w_from != n {
        assert(v@.subrange(from as int, to as int).len() != w@.subrange(
            w_from as int,
            w_to as int,
        ).len());
        return false;
    }
    let ghost a = v@.subrange(from as int, to as int);
    let ghost b = w@.subrange(w_from as int, w_to as int);
    let mut k: usize = 0;
    while k < n
        invariant
            0 <= k <= n,
            n == to - from,
            n == w_to - w_from,
            from <= to <= v.len(),
            w_from <= w_to <= w.len(),
            a == v@.subrange(from as int, to as int),
            b == w@.subrange(w_from as int, w_to as int),
            forall|j: int| 0 <= j < k ==> a[j] == b[j],
        decreases n - k,
    {
        if v[from + k] != w[w_from + k] {
            assert(a[k as int] != b[k as int]);
            return false;
        }
        k += 1;
    }
    assert(a =~= b);
    true
}

/// Whether `needle` stands somewhere in the characters of `v` from `from` up
/// to `to`.
pub(crate) fn range_contains(v: &Vec<char>, from: usize, to: usize, needle: &Vec<char>) -> (r: bool)
    requires
        from <= to <= v.len(),
    ensures
        r == spec_contains(v@.subrange(from as int, to as int), needle@),
{
    let ghost hay = v@.subrange(from as int, to as int);
    let n = needle.len();
    if n > to - from {
        assert(!spec_contains(hay, needle@)) by {
            if spec_contains(hay, needle@) {
                let at = choose|at: int| spec_occurs_at(hay, needle@, at);
                assert(at + needle@.len() <= hay.len());
            }
        }
        return false;
    }
    if n == 0 {
        assert(hay.subrange(0, 0) =~= needle@);
        assert(spec_occurs_at(hay, needle@, 0));
        return true;
    }
    let last = to - n;
    let mut at: usize = from;
    while at <= last
        invariant
            from <= at <= last + 1,
            last == to - n,
            0 < n == needle.len(),
            from <= to <= v.len(),
            n <= to - from,
            hay == v@.subrange(from as int, to as int),
            forall|k: int| 0 <= k < at - from ==> !spec_occurs_at(hay, needle@, k),
        decreases last + 1 - at,
    {
        if same_range(v, at, at + n, needle, 0, n) {
            proof {
                assert(needle@.subrange(0, n as int) =~= needle@);
                assert(hay.subrange(at - from, at - from + n) =~= v@.subrange(
                    at as int,
                    at + n,
                ));
                assert(spec_occurs_at(hay, needle@, at - from));
            }
            return true;
        }
        proof {
            assert(needle@.subrange(0, n as int) =~= needle@);
            assert(hay.subrange(at - from, at - from + n) =~= v@.subrange(at as int, at + n));
        }
        at += 1;
    }
    proof {
        assert(!spec_contains(hay, needle@)) by {
            if spec_contains(hay, needle@) {
                let k = choose|k: int| spec_occurs_at(hay, needle@, k);
                assert(0 <= k < at - from);
            }
        }
    }
    false
}

} // verus!
