//! Reading text: classes of characters, and how far a run of one class goes.

use vstd::prelude::*;

verus! {

/// A class of characters.
#[derive(Clone, Copy, Debug, PartialEq, Eq, Structural)]
pub enum CharClass {
    /// `0` to `9`.
    Digit,
    /// `a` to `z` and `A` to `Z`.
    Alpha,
    /// `A` to `Z`.
    Upper,
    /// `a` to `z`.
    Lower,
    /// Letters and digits.
    AlphaNumeric,
    /// Letters, digits and the hyphen.
    AlphaNumericHyphen,
    /// Small letters, digits and the hyphen.
    LowerAlphaNumericHyphen,
    /// Small letters, digits, the hyphen and the dot.
    LowerAlphaNumericHyphenDot,
    /// Letters, digits, the hyphen, the dot, the slash and the colon.
    Address,
    /// Letters, digits, the hyphen, the dot and the underscore.
    FileName,
    /// Every character but `<`.
    NotAngleOpen,
    /// Blank, tab, line feed and carriage return.
    Space,
    /// What a version is written with: letters, digits, the dot, the
    /// hyphen and the plus sign.
    VersionText,
    /// What a requirement on versions is written with: what a version is
    /// written with, and `^`, `~`, `<`, `>`, `=`, `*`, the comma and the
    /// blank.
    VersionReqText,
}

/// Whether `c` is one of `0` to `9`.
pub open spec fn is_digit(c: char) -> bool {
    '0' as u32 <= c as u32 && c as u32 <= '9' as u32
}

/// Whether `c` is one of `a` to `z`.
pub open spec fn is_lower(c: char) -> bool {
    'a' as u32 <= c as u32 && c as u32 <= 'z' as u32
}

/// Whether `c` is one of `A` to `Z`.
pub open spec fn is_upper(c: char) -> bool {
    'A' as u32 <= c as u32 && c as u32 <= 'Z' as u32
}

impl CharClass {
    /// Whether `c` belongs to the class.
    pub open spec fn holds(self, c: char) -> bool {
        match self {
            CharClass::Digit => is_digit(c),
            CharClass::Alpha => is_lower(c) || is_upper(c),
            CharClass::Upper => is_upper(c),
            CharClass::Lower => is_lower(c),
            CharClass::AlphaNumeric => is_lower(c) || is_upper(c) || is_digit(c),
            CharClass::AlphaNumericHyphen => is_lower(c) || is_upper(c) || is_digit(c) || c == '-',
            CharClass::LowerAlphaNumericHyphen => is_lower(c) || is_digit(c) || c == '-',
            CharClass::LowerAlphaNumericHyphenDot => is_lower(c) || is_digit(c) || c == '-' || c
                == '.',
            CharClass::Address => is_lower(c) || is_upper(c) || is_digit(c) || c == '-' || c == '.'
                || c == '/' || c == ':',
            CharClass::FileName => is_lower(c) || is_upper(c) || is_digit(c) || c == '-' || c == '.'
                || c == '_',
            CharClass::NotAngleOpen => c != '<',
            CharClass::Space => c == ' ' || c == '\t' || c == '\n' || c == '\r',
            CharClass::VersionText => is_lower(c) || is_upper(c) || is_digit(c) || c == '.' || c
                == '-' || c == '+',
            CharClass::VersionReqText => is_lower(c) || is_upper(c) || is_digit(c) || c == '.'
                || c == '-' || c == '+' || c == '^' || c == '~' || c == '<' || c == '>' || c == '='
                || c == '*' || c == ',' || c == ' ',
        }
    }

    /// Whether `c` belongs to the class.
    pub fn has(&self, c: char) -> (r: bool)
        ensures
            r == self.holds(c),
    {
        let n = c as u32;
        let digit = '0' as u32 <= n && n <= '9' as u32;
        let lower = 'a' as u32 <= n && n <= 'z' as u32;
        let upper = 'A' as u32 <= n && n <= 'Z' as u32;
        match self {
            CharClass::Digit => digit,
            CharClass::Alpha => lower || upper,
            CharClass::Upper => upper,
            CharClass::Lower => lower,
            CharClass::AlphaNumeric => lower || upper || digit,
            CharClass::AlphaNumericHyphen => lower || upper || digit || c == '-',
            CharClass::LowerAlphaNumericHyphen => lower || digit || c == '-',
            CharClass::LowerAlphaNumericHyphenDot => lower || digit || c == '-' || c == '.',
            CharClass::Address => lower || upper || digit || c == '-' || c == '.' || c == '/' || c
                == ':',
            CharClass::FileName => lower || upper || digit || c == '-' || c == '.' || c == '_',
            CharClass::NotAngleOpen => c != '<',
            CharClass::Space => c == ' ' || c == '\t' || c == '\n' || c == '\r',
            CharClass::VersionText => lower || upper || digit || c == '.' || c == '-' || c == '+',
            CharClass::VersionReqText => lower || upper || digit || c == '.' || c == '-' || c
                == '+' || c == '^' || c == '~' || c == '<' || c == '>' || c == '=' || c == '*'
                || c == ',' || c == ' ',
        }
    }
}

/// Where the run of characters of `class` that begins at `from` ends: the
/// place of the first character from there on that is not of the class, or
/// the end of the text.
pub open spec fn span_end(s: Seq<char>, from: int, class: CharClass) -> int
    decreases s.len() - from,
{
    if from < 0 || from >= s.len() || !class.holds(s[from]) {
        from
    } else {
        span_end(s, from + 1, class)
    }
}

/// A run ends where it began or later, and inside the text; all of it is of
/// the class, and what follows it is not.
pub proof fn lemma_span_end(s: Seq<char>, from: int, class: CharClass)
    requires
        0 <= from <= s.len(),
    ensures
        from <= span_end(s, from, class) <= s.len(),
        forall|i: int| from <= i < span_end(s, from, class) ==> class.holds(#[trigger] s[i]),
        span_end(s, from, class) < s.len() ==> !class.holds(s[span_end(s, from, class)]),
    decreases s.len() - from,
{
    if from < s.len() && class.holds(s[from]) {
        lemma_span_end(s, from + 1, class);
    }
}

/// A run that is followed from a later place inside it ends where it ends.
pub proof fn lemma_span_end_from_inside(s: Seq<char>, from: int, inside: int, class: CharClass)
    requires
        0 <= from <= inside <= s.len(),
        forall|i: int| from <= i < inside ==> class.holds(#[trigger] s[i]),
    ensures
        span_end(s, from, class) == span_end(s, inside, class),
    decreases inside - from,
{
    if from < inside {
        lemma_span_end_from_inside(s, from + 1, inside, class);
    }
}

/// The number of characters of `s`.
pub fn char_len(s: &str) -> (n: usize)
    ensures
        n == s@.len(),
{
    s.unicode_len()
}

/// Where the run of characters of `class` that begins at `from` ends.
pub fn span(s: &str, from: usize, class: CharClass) -> (end: usize)
    requires
        from <= s@.len(),
    ensures
        end == span_end(s@, from as int, class),
        from <= end <= s@.len(),
        s@.len() <= usize::MAX,
{
    let n = s.unicode_len();
    let mut i = from;
    while i < n
        invariant
            from <= i <= n,
            n == s@.len(),
            forall|j: int| from <= j < i ==> class.holds(#[trigger] s@[j]),
        decreases n - i,
    {
        if !class.has(s.get_char(i)) {
            proof {
                lemma_span_end_from_inside(s@, from as int, i as int, class);
            }
            return i;
        }
        i += 1;
    }
    proof {
        lemma_span_end_from_inside(s@, from as int, i as int, class);
    }
    i
}

/// Whether the character at `at` is `c`.
pub open spec fn char_at(s: Seq<char>, at: int, c: char) -> bool {
    0 <= at < s.len() && s[at] == c
}

/// Whether the character at `at` is `c`.
pub fn is_char_at(s: &str, at: usize, c: char) -> (r: bool)
    ensures
        r == char_at(s@, at as int, c),
        s@.len() <= usize::MAX,
{
    at < s.unicode_len() && s.get_char(at) == c
}

/// Whether `s` holds `tag` at `at`.
pub open spec fn tag_at(s: Seq<char>, at: int, tag: Seq<char>) -> bool {
    0 <= at && at + tag.len() <= s.len() && s.subrange(at, at + tag.len()) == tag
}

/// Whether `s` holds `tag` at `at`.
pub fn has_tag_at(s: &str, at: usize, tag: &str) -> (r: bool)
    ensures
        r == tag_at(s@, at as int, tag@),
        s@.len() <= usize::MAX,
{
    let n = s.unicode_len();
    let m = tag.unicode_len();
    if at > n || m > n - at {
        return false;
    }
    let mut i: usize = 0;
    while i < m
        invariant
            i <= m,
            m == tag@.len(),
            n == s@.len(),
            at + m <= n,
            forall|j: int| 0 <= j < i ==> s@[at + j] == tag@[j],
        decreases m - i,
    {
        if s.get_char(at + i) != tag.get_char(i) {
            assert(s@.subrange(at as int, at + m)[i as int] == s@[at + i]);
            return false;
        }
        i += 1;
    }
    assert(s@.subrange(at as int, at + m) =~= tag@);
    true
}

/// The characters of `s` from `from` up to `to`, as a string of their own.
pub fn slice(s: &str, from: usize, to: usize) -> (r: String)
    requires
        from <= to <= s@.len(),
    ensures
        r@ == s@.subrange(from as int, to as int),
{
    String::from_str(s.substring_char(from, to))
}

/// What is left of `s` from `from` on.
pub fn rest(s: &str, from: usize) -> (r: &str)
    requires
        from <= s@.len(),
    ensures
        r@ == s@.skip(from as int),
{
    let r = s.substring_char(from, s.unicode_len());
    assert(r@ =~= s@.skip(from as int));
    r
}

} // verus!
