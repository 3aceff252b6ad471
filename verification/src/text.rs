//! Character-level helpers for the text that external tools print.

use vstd::prelude::*;
use vstd::std_specs::iter::IteratorSpec;
use vstd::slice::slice_subrange;
use vstd::string::StrSliceExecFns;

verus! {

/// Whether `c` is white space in the sense of Unicode's `White_Space` property.
pub open spec fn is_white_space(c: char) -> bool {
    let code = c as u32;
    ||| 0x09 <= code <= 0x0D
    ||| code == 0x20
    ||| code == 0x85
    ||| code == 0xA0
    ||| code == 0x1680
    ||| 0x2000 <= code <= 0x200A
    ||| code == 0x2028
    ||| code == 0x2029
    ||| code == 0x202F
    ||| code == 0x205F
    ||| code == 0x3000
}

/// Tells whether `c` is white space.
pub fn is_whitespace(c: char) -> (white: bool)
    ensures
        white == is_white_space(c),
{
    let code: u32 = c as u32;
    (0x09 <= code && code <= 0x0D) || code == 0x20 || code == 0x85 || code == 0xA0 || code
        == 0x1680 || (0x2000 <= code && code <= 0x200A) || code == 0x2028 || code == 0x2029
        || code == 0x202F || code == 0x205F || code == 0x3000
}

/// `s` without the white space at its start.
pub open spec fn trim_start(s: Seq<char>) -> Seq<char>
    decreases s.len(),
{
    if s.len() > 0 && is_white_space(s[0]) {
        trim_start(s.drop_first())
    } else {
        s
    }
}

/// `s` without the white space at its end.
pub open spec fn trim_end(s: Seq<char>) -> Seq<char>
    decreases s.len(),
{
    if s.len() > 0 && is_white_space(s.last()) {
        trim_end(s.drop_last())
    } else {
        s
    }
}

/// `s` without the white space at either end.
pub open spec fn trimmed(s: Seq<char>) -> Seq<char> {
    trim_end(trim_start(s))
}

/// Trimming the start drops a run of white space from the start, and the longest one: what is
/// left is the end of `s`, and does not start with white space.
pub proof fn lemma_trim_start(s: Seq<char>)
    ensures
        trim_start(s).len() <= s.len(),
        trim_start(s) == s.skip(s.len() - trim_start(s).len()),
        forall|i: int| 0 <= i < s.len() - trim_start(s).len() ==> is_white_space(#[trigger] s[i]),
        trim_start(s).len() > 0 ==> !is_white_space(trim_start(s)[0]),
    decreases s.len(),
{
    if s.len() > 0 && is_white_space(s[0]) {
        let rest = s.drop_first();
        lemma_trim_start(rest);
        let dropped = rest.len() - trim_start(rest).len();
        assert(rest.skip(dropped) =~= s.skip(dropped + 1));
        assert forall|i: int| 0 <= i < s.len() - trim_start(s).len() implies is_white_space(
            #[trigger] s[i],
        ) by {
            if i > 0 {
                assert(s[i] == rest[i - 1]);
            }
        }
    } else {
        assert(s.skip(0) =~= s);
    }
}

/// Trimming the end drops a run of white space from the end, and the longest one: what is
/// left is the start of `s`, and does not end with white space.
pub proof fn lemma_trim_end(s: Seq<char>)
    ensures
        trim_end(s).len() <= s.len(),
        trim_end(s) == s.take(trim_end(s).len() as int),
        forall|i: int| trim_end(s).len() <= i < s.len() ==> is_white_space(#[trigger] s[i]),
        trim_end(s).len() > 0 ==> !is_white_space(trim_end(s).last()),
    decreases s.len(),
{
    if s.len() > 0 && is_white_space(s.last()) {
        let rest = s.drop_last();
        lemma_trim_end(rest);
        assert(rest.take(trim_end(rest).len() as int) =~= s.take(trim_end(rest).len() as int));
        assert forall|i: int| trim_end(s).len() <= i < s.len() implies is_white_space(
            #[trigger] s[i],
        ) by {
            if i < s.len() - 1 {
                assert(s[i] == rest[i]);
            }
        }
    } else {
        assert(s.take(s.len() as int) =~= s);
    }
}

/// Trimmed text has no white space at either end, and trimming it again changes nothing.
pub proof fn lemma_trimmed(s: Seq<char>)
    ensures
        trimmed(s).len() > 0 ==> !is_white_space(trimmed(s)[0]) && !is_white_space(
            trimmed(s).last(),
        ),
        trimmed(trimmed(s)) == trimmed(s),
        trimmed(s).len() <= s.len(),
{
    let inner = trim_start(s);
    lemma_trim_start(s);
    lemma_trim_end(inner);
    let out = trim_end(inner);
    if out.len() > 0 {
        assert(out[0] == inner[0]);
    }
}

/// The characters of `s`, in order.
pub fn chars_of(s: &str) -> (chars: Vec<char>)
    ensures
        chars@ == s@,
{
    let mut chars: Vec<char> = Vec::new();
    for c in it: s.chars()
        invariant
            chars@ == it.seq().take(it.index() as int),
            it.seq() == s@,
    {
        chars.push(c);
    }
    chars
}

/// The number of white-space characters at the start of `chars`.
pub fn leading_white_space(chars: &[char]) -> (count: usize)
    ensures
        count <= chars@.len(),
        trim_start(chars@) == chars@.skip(count as int),
        forall|i: int| 0 <= i < count ==> is_white_space(#[trigger] chars@[i]),
        count < chars@.len() ==> !is_white_space(chars@[count as int]),
{
    let mut count: usize = 0;
    proof {
        assert(chars@.skip(0) =~= chars@);
    }
    while count < chars.len() && is_whitespace(chars[count])
        invariant
            count <= chars@.len(),
            trim_start(chars@) == trim_start(chars@.skip(count as int)),
            forall|i: int| 0 <= i < count ==> is_white_space(#[trigger] chars@[i]),
        decreases chars@.len() - count,
    {
        proof {
            assert(chars@.skip(count as int).drop_first() =~= chars@.skip(count + 1));
        }
        count += 1;
    }
    proof {
        assert(chars@.skip(chars@.len() as int).len() == 0);
    }
    count
}

/// The length of `chars` without the white space at its end.
pub fn trailing_white_space_start(chars: &[char]) -> (end: usize)
    ensures
        end <= chars@.len(),
        trim_end(chars@) == chars@.take(end as int),
        forall|i: int| end <= i < chars@.len() ==> is_white_space(#[trigger] chars@[i]),
        end > 0 ==> !is_white_space(chars@[end - 1]),
{
    let mut end: usize = chars.len();
    proof {
        assert(chars@.take(end as int) =~= chars@);
    }
    while end > 0 && is_whitespace(chars[end - 1])
        invariant
            end <= chars@.len(),
            trim_end(chars@) == trim_end(chars@.take(end as int)),
            forall|i: int| end <= i < chars@.len() ==> is_white_space(#[trigger] chars@[i]),
        decreases end,
    {
        proof {
            assert(chars@.take(end as int).drop_last() =~= chars@.take(end - 1));
        }
        end -= 1;
    }
    end
}

/// `s` without the white space at either end.
pub fn trim(s: &str) -> (out: &str)
    ensures
        out@ == trimmed(s@),
{
    let chars = chars_of(s);
    let start = leading_white_space(chars.as_slice());
    let rest = slice_subrange(chars.as_slice(), start, chars.len());
    proof {
        assert(rest@ =~= chars@.skip(start as int));
    }
    let len = trailing_white_space_start(rest);
    proof {
        assert(rest@.take(len as int) =~= s@.subrange(start as int, start + len));
    }
    s.substring_char(start, start + len)
}

/// Whether `pattern` stands in `text` at position `at`.
pub open spec fn matches_at(text: Seq<char>, pattern: Seq<char>, at: int) -> bool {
    &&& 0 <= at
    &&& at + pattern.len() <= text.len()
    &&& text.subrange(at, at + pattern.len()) == pattern
}

/// The first position at or after `from` at which `pattern` stands in `text`.
pub open spec fn find_from(text: Seq<char>, pattern: Seq<char>, from: int) -> Option<int>
    decreases text.len() + 1 - from,
{
    if from < 0 || from + pattern.len() > text.len() {
        None
    } else if matches_at(text, pattern, from) {
        Some(from)
    } else {
        find_from(text, pattern, from + 1)
    }
}

/// What `find_from` finds is the least position from `from` on at which the pattern stands.
pub proof fn lemma_find_from(text: Seq<char>, pattern: Seq<char>, from: int)
    requires
        0 <= from,
    ensures
        match find_from(text, pattern, from) {
            Some(at) => {
                &&& from <= at
                &&& matches_at(text, pattern, at)
                &&& forall|i: int| from <= i < at ==> !matches_at(text, pattern, i)
            },
            None => forall|i: int| from <= i ==> !matches_at(text, pattern, i),
        },
    decreases text.len() + 1 - from,
{
    if from + pattern.len() > text.len() {
    } else if matches_at(text, pattern, from) {
    } else {
        lemma_find_from(text, pattern, from + 1);
    }
}

/// The least position from `from` on at which the pattern stands is what `find_from` finds.
pub proof fn lemma_find_from_least(text: Seq<char>, pattern: Seq<char>, from: int, at: int)
    requires
        0 <= from <= at,
        matches_at(text, pattern, at),
        forall|i: int| from <= i < at ==> !matches_at(text, pattern, i),
    ensures
        find_from(text, pattern, from) == Some(at),
    decreases at - from,
{
    if from < at {
        lemma_find_from_least(text, pattern, from + 1, at);
    }
}

/// Tells whether `pattern` stands in `text` at position `at`.
pub fn starts_at(text: &[char], pattern: &[char], at: usize) -> (found: bool)
    ensures
        found == matches_at(text@, pattern@, at as int),
{
    if pattern.len() > text.len() || at > text.len() - pattern.len() {
        return false;
    }
    let mut i: usize = 0;
    while i < pattern.len()
        invariant
            i <= pattern@.len(),
            at + pattern@.len() <= text@.len() <= usize::MAX,
            forall|j: int| 0 <= j < i ==> text@[at + j] == pattern@[j],
        decreases pattern@.len() - i,
    {
        if text[at + i] != pattern[i] {
            proof {
                let window = text@.subrange(at as int, at + pattern@.len());
                assert(window[i as int] == text@[at + i]);
            }
            return false;
        }
        i += 1;
    }
    proof {
        assert(text@.subrange(at as int, at + pattern@.len()) =~= pattern@);
    }
    true
}

/// The first position at or after `from` at which `pattern` stands in `text`.
pub fn find(text: &[char], pattern: &[char], from: usize) -> (found: Option<usize>)
    ensures
        match found {
            Some(at) => find_from(text@, pattern@, from as int) == Some(at as int),
            None => find_from(text@, pattern@, from as int) is None,
        },
{
    if pattern.len() > text.len() {
        return None;
    }
    let last: usize = text.len() - pattern.len();
    let mut at: usize = from;
    while at < last
        invariant
            last + pattern@.len() == text@.len(),
            from <= at,
            find_from(text@, pattern@, from as int) == find_from(text@, pattern@, at as int),
        decreases last - at,
    {
        if starts_at(text, pattern, at) {
            return Some(at);
        }
        at += 1;
    }
    if at == last && starts_at(text, pattern, at) {
        Some(at)
    } else {
        proof {
            assert(find_from(text@, pattern@, at + 1) is None);
        }
        None
    }
}

/// The length of the run of characters at the start of `s` that are not white space.
pub open spec fn word_len(s: Seq<char>) -> nat
    decreases s.len(),
{
    if s.len() > 0 && !is_white_space(s[0]) {
        1 + word_len(s.drop_first())
    } else {
        0
    }
}

/// The first word of `s`: its first maximal run of characters that are not white space.
pub open spec fn first_word(s: Seq<char>) -> Option<Seq<char>> {
    let rest = trim_start(s);
    if rest.len() == 0 {
        None
    } else {
        Some(rest.take(word_len(rest) as int))
    }
}

/// The length of the run of characters at the start of `chars` that are not white space.
pub fn leading_word(chars: &[char]) -> (count: usize)
    ensures
        count == word_len(chars@),
        count <= chars@.len(),
{
    let mut count: usize = 0;
    proof {
        assert(chars@.skip(0) =~= chars@);
    }
    while count < chars.len() && !is_whitespace(chars[count])
        invariant
            count <= chars@.len(),
            word_len(chars@) == count + word_len(chars@.skip(count as int)),
        decreases chars@.len() - count,
    {
        proof {
            assert(chars@.skip(count as int).drop_first() =~= chars@.skip(count + 1));
        }
        count += 1;
    }
    count
}

/// Where the first word of `chars` starts and ends, if there is one.
pub fn first_word_span(chars: &[char]) -> (span: Option<(usize, usize)>)
    ensures
        match span {
            Some((start, end)) => {
                &&& start < end <= chars@.len()
                &&& first_word(chars@) == Some(chars@.subrange(start as int, end as int))
            },
            None => first_word(chars@) is None,
        },
{
    let start = leading_white_space(chars);
    if start == chars.len() {
        return None;
    }
    let rest = slice_subrange(chars, start, chars.len());
    proof {
        assert(rest@ =~= chars@.skip(start as int));
    }
    let len = leading_word(rest);
    proof {
        assert(rest@.take(len as int) =~= chars@.subrange(start as int, start + len));
    }
    Some((start, start + len))
}

} // verus!
