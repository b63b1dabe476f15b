//! Character-level building blocks of the two text formats: character
//! classes, searching, trimming and splitting into lines.
//!
//! Text is modelled as `Seq<char>`. The executable functions work on
//! `&[char]`, so that every position is reached in constant time.

use vstd::prelude::*;
use vstd::slice::slice_subrange;

verus! {

/// `String::push` of the standard library appends the character to the
/// end of the string.
pub assume_specification[ String::push ](s: &mut String, c: char)
    ensures
        final(s)@ == old(s)@.push(c),
;

/// The kinds of character that the parsers search for.
#[derive(Clone, Copy, Debug)]
pub enum CharClass {
    /// The line feed that ends a line.
    Newline,
    /// The `#` that starts a comment.
    Hash,
    /// A character that separates a key from its value.
    Separator,
    /// Anything but whitespace.
    Visible,
    /// Anything but an ASCII digit.
    NonDigit,
}

/// Whether `c` is whitespace in the Unicode sense (the `White_Space`
/// property).
pub open spec fn spec_is_whitespace(c: char) -> bool {
    let u = c as u32;
    ||| 0x09 <= u <= 0x0d
    ||| u == 0x20
    ||| u == 0x85
    ||| u == 0xa0
    ||| u == 0x1680
    ||| 0x2000 <= u <= 0x200a
    ||| u == 0x2028
    ||| u == 0x2029
    ||| u == 0x202f
    ||| u == 0x205f
    ||| u == 0x3000
}

/// Whether `c` is ASCII whitespace: space, tab, line feed, form feed or
/// carriage return.
pub open spec fn spec_is_ascii_whitespace(c: char) -> bool {
    c == ' ' || c == '\t' || c == '\n' || c == '\x0c' || c == '\r'
}

/// Whether `c` is one of the digits `0` to `9`.
pub open spec fn spec_is_digit(c: char) -> bool {
    '0' <= c <= '9'
}

impl CharClass {
    /// Whether `c` belongs to this class.
    pub open spec fn spec_holds(self, c: char) -> bool {
        match self {
            CharClass::Newline => c == '\n',
            CharClass::Hash => c == '#',
            CharClass::Separator => spec_is_ascii_whitespace(c),
            CharClass::Visible => !spec_is_whitespace(c),
            CharClass::NonDigit => !spec_is_digit(c),
        }
    }

    /// Whether `c` belongs to this class.
    #[verifier::when_used_as_spec(spec_holds)]
    pub fn holds(self, c: char) -> (r: bool)
        ensures
            r == self.spec_holds(c),
    {
        match self {
            CharClass::Newline => c == '\n',
            CharClass::Hash => c == '#',
            CharClass::Separator => is_ascii_whitespace(c),
            CharClass::Visible => !is_whitespace(c),
            CharClass::NonDigit => !is_digit(c),
        }
    }
}

/// Whether `c` is whitespace in the Unicode sense.
#[verifier::when_used_as_spec(spec_is_whitespace)]
pub fn is_whitespace(c: char) -> (r: bool)
    ensures
        r == spec_is_whitespace(c),
{
    let u: u32 = c as u32;
    (0x09 <= u && u <= 0x0d) || u == 0x20 || u == 0x85 || u == 0xa0 || u == 0x1680
        || (0x2000 <= u && u <= 0x200a) || u == 0x2028 || u == 0x2029 || u == 0x202f
        || u == 0x205f || u == 0x3000
}

/// Whether `c` is ASCII whitespace.
#[verifier::when_used_as_spec(spec_is_ascii_whitespace)]
pub fn is_ascii_whitespace(c: char) -> (r: bool)
    ensures
        r == spec_is_ascii_whitespace(c),
{
    c == ' ' || c == '\t' || c == '\n' || c == '\x0c' || c == '\r'
}

/// Whether `c` is one of the digits `0` to `9`.
#[verifier::when_used_as_spec(spec_is_digit)]
pub fn is_digit(c: char) -> (r: bool)
    ensures
        r == spec_is_digit(c),
{
    '0' <= c && c <= '9'
}

/// The position of the first character of `class` in `s`, or the length of
/// `s` where it holds none.
pub open spec fn first_match(s: Seq<char>, class: CharClass) -> nat
    decreases s.len(),
{
    if s.len() == 0 || class.holds(s[0]) {
        0
    } else {
        1 + first_match(s.drop_first(), class)
    }
}

/// `first_match` lies within `s`, nothing before it is of the class, and the
/// character at it is, unless it is the end of `s`.
pub proof fn lemma_first_match(s: Seq<char>, class: CharClass)
    ensures
        first_match(s, class) <= s.len(),
        forall|i: int| 0 <= i < first_match(s, class) ==> !class.holds(#[trigger] s[i]),
        first_match(s, class) < s.len() ==> class.holds(s[first_match(s, class) as int]),
    decreases s.len(),
{
    if s.len() != 0 && !class.holds(s[0]) {
        let rest = s.drop_first();
        lemma_first_match(rest, class);
        assert forall|i: int| 0 <= i < first_match(s, class) implies !class.holds(
            #[trigger] s[i],
        ) by {
            if i > 0 {
                assert(s[i] == rest[i - 1]);
            }
        }
    }
}

/// A position with the three properties of `lemma_first_match` is
/// `first_match`.
pub proof fn lemma_first_match_is(s: Seq<char>, class: CharClass, k: int)
    requires
        0 <= k <= s.len(),
        forall|i: int| 0 <= i < k ==> !class.holds(#[trigger] s[i]),
        k < s.len() ==> class.holds(s[k]),
    ensures
        first_match(s, class) == k,
    decreases s.len(),
{
    if k > 0 {
        let rest = s.drop_first();
        assert(!class.holds(s[0]));
        assert forall|i: int| 0 <= i < k - 1 implies !class.holds(#[trigger] rest[i]) by {
            assert(rest[i] == s[i + 1]);
        }
        lemma_first_match_is(rest, class, k - 1);
    }
}

/// `s` without the whitespace it begins with.
pub open spec fn trimmed_start(s: Seq<char>) -> Seq<char> {
    s.skip(first_match(s, CharClass::Visible) as int)
}

/// `s` without the whitespace it ends with.
pub open spec fn trimmed_end(s: Seq<char>) -> Seq<char>
    decreases s.len(),
{
    if s.len() > 0 && is_whitespace(s.last()) {
        trimmed_end(s.drop_last())
    } else {
        s
    }
}

/// `s` without the whitespace around it.
pub open spec fn trimmed(s: Seq<char>) -> Seq<char> {
    trimmed_end(trimmed_start(s))
}

/// Trimming leaves a text as it is where no whitespace stands at either
/// end of it.
pub proof fn lemma_trimmed_keeps_bare(s: Seq<char>)
    requires
        s.len() > 0 ==> !is_whitespace(s.first()) && !is_whitespace(s.last()),
    ensures
        trimmed(s) == s,
{
    assert(s.skip(0) == s);
}

/// The length of the first line of `text`, its line feed included. The last
/// line of a text may lack the line feed.
pub open spec fn first_line_len(text: Seq<char>) -> nat {
    let stop = first_match(text, CharClass::Newline);
    if stop < text.len() {
        stop + 1
    } else {
        text.len()
    }
}

/// The lines of `text`, each with the line feed that ends it.
pub open spec fn lines_of(text: Seq<char>) -> Seq<Seq<char>>
    decreases text.len(),
{
    if text.len() == 0 {
        Seq::empty()
    } else {
        let n = first_line_len(text) as int;
        seq![text.take(n)] + lines_of(text.skip(n))
    }
}

/// Copies the characters of `s` into a vector.
pub fn to_chars(s: &str) -> (chars: Vec<char>)
    ensures
        chars@ == s@,
{
    let mut chars: Vec<char> = Vec::new();
    for c in it: s.chars()
        invariant
            it.seq() == s@,
            chars@ == it.seq().take(it.index() as int),
    {
        chars.push(c);
    }
    chars
}

/// Collects the characters of `s` into a `String`.
pub fn to_string(s: &[char]) -> (text: String)
    ensures
        text@ == s@,
{
    let mut text = String::new();
    let mut i: usize = 0;
    while i < s.len()
        invariant
            i <= s.len(),
            text@ == s@.take(i as int),
        decreases s.len() - i,
    {
        text.push(s[i]);
        i = i + 1;
    }
    text
}

/// Finds the first character of `class` in `s`.
pub fn find(s: &[char], class: CharClass) -> (at: usize)
    ensures
        at == first_match(s@, class),
        at <= s.len(),
{
    let mut i: usize = 0;
    while i < s.len() && !class.holds(s[i])
        invariant
            i <= s.len(),
            forall|j: int| 0 <= j < i ==> !class.holds(#[trigger] s@[j]),
        decreases s.len() - i,
    {
        i = i + 1;
    }
    proof {
        lemma_first_match_is(s@, class, i as int);
    }
    i
}

/// Removes the whitespace around `s`.
pub fn trim(s: &[char]) -> (r: &[char])
    ensures
        r@ == trimmed(s@),
{
    let start = find(s, CharClass::Visible);
    let mut end: usize = s.len();
    while end > start && is_whitespace(s[end - 1])
        invariant
            start <= end <= s.len(),
            trimmed(s@) == trimmed_end(s@.subrange(start as int, end as int)),
        decreases end,
    {
        assert(s@.subrange(start as int, end as int).drop_last()
            == s@.subrange(start as int, end - 1));
        end = end - 1;
    }
    slice_subrange(s, start, end)
}

/// Measures the first line of `text`.
pub fn line_len(text: &[char]) -> (n: usize)
    ensures
        n == first_line_len(text@),
        n <= text.len(),
        text.len() > 0 ==> n > 0,
{
    let stop = find(text, CharClass::Newline);
    if stop < text.len() {
        stop + 1
    } else {
        text.len()
    }
}

/// Tells whether `s` begins with `prefix`.
pub fn starts_with(s: &[char], prefix: &[char]) -> (r: bool)
    ensures
        r == prefix@.is_prefix_of(s@),
{
    if prefix.len() > s.len() {
        return false;
    }
    let mut i: usize = 0;
    while i < prefix.len()
        invariant
            i <= prefix.len() <= s.len(),
            forall|j: int| 0 <= j < i ==> prefix@[j] == s@[j],
        decreases prefix.len() - i,
    {
        if prefix[i] != s[i] {
            assert(s@.subrange(0, prefix.len() as int)[i as int] != prefix@[i as int]);
            return false;
        }
        i = i + 1;
    }
    true
}

} // verus!
