//! Slices of shared text, the places where something was read, and the
//! fixed pieces of the notation.

use std::ops::Range;
use std::sync::Arc;
use vstd::prelude::*;
use crate::lex::char_len;

verus! {

/// What was read, together with the place where it was read.
#[derive(Debug)]
pub struct Trace<W> {
    pub range: Range<usize>,
    pub w: W,
}

/// A text that knows where it stands in the text it was cut from.
pub trait Input {
    /// The place of the first character in the whole text.
    spec fn spec_offset(&self) -> usize;

    /// The number of characters.
    spec fn spec_len(&self) -> usize;

    /// The place of the first character in the whole text.
    fn location_offset(&self) -> (r: usize)
        ensures
            r == self.spec_offset(),
    ;

    /// The number of characters.
    fn len(&self) -> (r: usize)
        ensures
            r == self.spec_len(),
    ;
}

impl<W> Trace<W> {
    /// `w`, read where `input` stands: from its first character to the
    /// place after its last.
    pub fn new<I: Input>(input: &I, w: W) -> (r: Self)
        requires
            input.spec_offset() + input.spec_len() <= usize::MAX,
        ensures
            r.w == w,
            r.range.start == input.spec_offset(),
            r.range.end == input.spec_offset() + input.spec_len(),
    {
        let start = input.location_offset();
        Self { range: Range { start, end: start + input.len() }, w }
    }

    /// `w`, read at `range`.
    pub fn from_range<N>(range: Range<usize>, w: N) -> (r: Trace<N>)
        ensures
            r.range == range,
            r.w == w,
    {
        Trace { range, w }
    }

    /// What was read.
    pub fn unwrap(self) -> (r: W)
        ensures
            r == self.w,
    {
        self.w
    }
}

/// A part of a shared text: the text, the place where the part begins, and
/// the number of its characters.
#[derive(Debug, Clone)]
pub struct SliceStr {
    pub location_offset: usize,
    pub len: usize,
    pub string: Arc<String>,
}

impl SliceStr {
    /// Whether the part lies inside the text.
    pub open spec fn wf(&self) -> bool {
        self.location_offset + self.len <= self.string@.len() && self.string@.len() <= usize::MAX
    }

    /// The characters of the part.
    pub open spec fn chars(&self) -> Seq<char> {
        self.string@.subrange(self.location_offset as int, self.location_offset + self.len)
    }

    /// The whole of `string`.
    pub fn new(string: String) -> (r: Self)
        ensures
            r.wf(),
            r.chars() == string@,
            r.location_offset == 0,
            r.len == string@.len(),
    {
        Self::from_arc(Arc::new(string))
    }

    /// The whole of `string`.
    pub fn from_arc(string: Arc<String>) -> (r: Self)
        ensures
            r.wf(),
            r.chars() == string@,
            r.string == string,
            r.location_offset == 0,
            r.len == string@.len(),
    {
        let len = char_len(string.as_str());
        let r = Self { len, string, location_offset: 0 };
        assert(r.chars() =~= string@);
        r
    }

    /// The part of `string` that begins at `location_offset` and has `len`
    /// characters. Nothing is asked of the numbers here; the part can be read
    /// only where it lies inside the text.
    pub fn from(string: Arc<String>, location_offset: usize, len: usize) -> (r: Self)
        ensures
            r.string == string,
            r.location_offset == location_offset,
            r.len == len,
    {
        Self { string, location_offset, len }
    }

    /// The characters of the part.
    pub fn as_str(&self) -> (r: &str)
        requires
            self.wf(),
        ensures
            r@ == self.chars(),
    {
        self.string.as_str().substring_char(
            self.location_offset,
            self.location_offset + self.len,
        )
    }

    /// The characters of the part, as a string of their own.
    pub fn to_string(&self) -> (r: String)
        requires
            self.wf(),
        ensures
            r@ == self.chars(),
    {
        String::from_str(self.as_str())
    }

    /// The number of characters of the part.
    pub fn len(&self) -> (r: usize)
        ensures
            r == self.len,
    {
        self.len
    }

    /// The part of this part from `start` up to `end`.
    pub fn slice(&self, start: usize, end: usize) -> (r: Self)
        requires
            self.wf(),
            start <= end <= self.len,
        ensures
            r.wf(),
            r.chars() == self.chars().subrange(start as int, end as int),
            r.string == self.string,
            r.location_offset == self.location_offset + start,
            r.len == end - start,
    {
        let r = SliceStr {
            location_offset: self.location_offset + start,
            len: end - start,
            string: self.string.clone(),
        };
        assert(r.chars() =~= self.chars().subrange(start as int, end as int));
        r
    }

    /// The part of this part from `start` on.
    pub fn slice_from(&self, start: usize) -> (r: Self)
        requires
            self.wf(),
            start <= self.len,
        ensures
            r.wf(),
            r.chars() == self.chars().skip(start as int),
            r.string == self.string,
    {
        let r = self.slice(start, self.len);
        assert(r.chars() =~= self.chars().skip(start as int));
        r
    }

    /// The part of this part up to `end`.
    pub fn slice_to(&self, end: usize) -> (r: Self)
        requires
            self.wf(),
            end <= self.len,
        ensures
            r.wf(),
            r.chars() == self.chars().take(end as int),
            r.string == self.string,
    {
        let r = self.slice(0, end);
        assert(r.chars() =~= self.chars().take(end as int));
        r
    }

    /// The first `count` characters, and the rest.
    pub fn take_split(&self, count: usize) -> (r: (Self, Self))
        requires
            self.wf(),
            count <= self.len,
        ensures
            r.0.wf(),
            r.1.wf(),
            r.0.chars() == self.chars().skip(count as int),
            r.1.chars() == self.chars().take(count as int),
    {
        (self.slice_from(count), self.slice_to(count))
    }

    /// The character at `index` of the part, if there is one.
    pub fn char_at(&self, index: usize) -> (r: Option<char>)
        requires
            self.wf(),
        ensures
            r == if index < self.len {
                Some(self.chars()[index as int])
            } else {
                None
            },
    {
        if index < self.len {
            Some(self.string.as_str().get_char(self.location_offset + index))
        } else {
            None
        }
    }
}

impl Input for SliceStr {
    open spec fn spec_offset(&self) -> usize {
        self.location_offset
    }

    open spec fn spec_len(&self) -> usize {
        self.len
    }

    fn location_offset(&self) -> (r: usize) {
        self.location_offset
    }

    fn len(&self) -> (r: usize) {
        self.len
    }
}

/// The way characters are walked.
pub struct MyCharIterator {

}

/// A walk over the characters of a slice.
pub struct MyChars {
    pub index: usize,
    pub slice: SliceStr,
}

impl MyChars {
    /// A walk that begins at the first character of `slice`.
    pub fn new(slice: SliceStr) -> (r: Self)
        ensures
            r.index == 0,
            r.slice == slice,
    {
        Self { index: 0, slice }
    }

    /// The next character, if the walk has not come to the end.
    pub fn next(&mut self) -> (r: Option<char>)
        requires
            old(self).slice.wf(),
        ensures
            final(self).slice == old(self).slice,
            old(self).index < old(self).slice.len ==> r == Some(
                old(self).slice.chars()[old(self).index as int],
            ) && final(self).index == old(self).index + 1,
            old(self).index >= old(self).slice.len ==> r.is_none() && final(self).index == old(
                self,
            ).index,
    {
        match self.slice.char_at(self.index) {
            None => None,
            Some(next) => {
                self.index = self.index + 1;
                Some(next)
            },
        }
    }
}

/// A walk over the characters of a slice, each with its place.
pub struct CharIterator {
    pub index: usize,
    pub slice: SliceStr,
}

impl CharIterator {
    /// A walk that begins at the first character of `slice`.
    pub fn new(slice: SliceStr) -> (r: Self)
        ensures
            r.index == 0,
            r.slice == slice,
    {
        Self { index: 0, slice }
    }

    /// The place of the next character and the character, if the walk has
    /// not come to the end.
    pub fn next(&mut self) -> (r: Option<(usize, char)>)
        requires
            old(self).slice.wf(),
        ensures
            final(self).slice == old(self).slice,
            old(self).index < old(self).slice.len ==> r == Some(
                (old(self).index, old(self).slice.chars()[old(self).index as int]),
            ) && final(self).index == old(self).index + 1,
            old(self).index >= old(self).slice.len ==> r.is_none() && final(self).index == old(
                self,
            ).index,
    {
        match self.slice.char_at(self.index) {
            None => None,
            Some(next) => {
                let place = self.index;
                self.index = self.index + 1;
                Some((place, next))
            },
        }
    }
}

/// A text that is handed on as it is.
#[derive(Debug, Clone)]
pub struct Span<I> {
    pub input: I,
}

impl<I> Span<I> {
    /// The span of `input`.
    pub fn new(input: I) -> (r: Self)
        ensures
            r.input == input,
    {
        Self { input }
    }
}

/// The fixed pieces of the notation.
#[derive(Clone, Copy, Debug, PartialEq, Eq, Hash, Structural)]
pub enum Tag {
    SegSep,
    VarPrefix,
    CurlyOpen,
    CurlyClose,
    AngleOpen,
    AngleClose,
    SquareOpen,
    SquareClose,
    ParenOpen,
    ParenClose,
    DoubleQuote,
    SingleQuote,
    Slash,
    At,
    Bang,
    Question,
    Wildcard,
    BackTic,
    Pound,
    Plus,
    Minus,
}

impl Tag {
    /// The text of a piece.
    pub open spec fn text(self) -> Seq<char> {
        match self {
            Tag::SegSep => ":"@,
            Tag::VarPrefix => "$"@,
            Tag::CurlyOpen => "{"@,
            Tag::CurlyClose => "}"@,
            Tag::AngleOpen => "<"@,
            Tag::AngleClose => ">"@,
            Tag::SquareOpen => "["@,
            Tag::SquareClose => "]"@,
            Tag::ParenOpen => "("@,
            Tag::ParenClose => ")"@,
            Tag::DoubleQuote => "\""@,
            Tag::SingleQuote => "'"@,
            Tag::Slash => "/"@,
            Tag::At => "@"@,
            Tag::Bang => "!"@,
            Tag::Question => "?"@,
            Tag::Wildcard => "*"@,
            Tag::BackTic => "`"@,
            Tag::Pound => "#"@,
            Tag::Plus => "+"@,
            Tag::Minus => "-"@,
        }
    }

    /// The text of the piece.
    pub fn as_str(&self) -> (r: &'static str)
        ensures
            r@ == self.text(),
    {
        match self {
            Tag::SegSep => ":",
            Tag::VarPrefix => "$",
            Tag::CurlyOpen => "{",
            Tag::CurlyClose => "}",
            Tag::AngleOpen => "<",
            Tag::AngleClose => ">",
            Tag::SquareOpen => "[",
            Tag::SquareClose => "]",
            Tag::ParenOpen => "(",
            Tag::ParenClose => ")",
            Tag::DoubleQuote => "\"",
            Tag::SingleQuote => "'",
            Tag::Slash => "/",
            Tag::At => "@",
            Tag::Bang => "!",
            Tag::Question => "?",
            Tag::Wildcard => "*",
            Tag::BackTic => "`",
            Tag::Pound => "#",
            Tag::Plus => "+",
            Tag::Minus => "-",
        }
    }
}

/// The contexts in which a reading failed, innermost first.
#[derive(Debug, Clone, PartialEq, Eq)]
pub struct ErrCtxStack {
    pub contexts: Vec<String>,
}

/// A reading that failed: what is to be said of it, where it failed, and the
/// text that was being read there.
#[derive(Debug, PartialEq, Eq)]
pub struct ParseErr {
    pub message: String,
    pub range: Range<usize>,
    pub span: String,
}

} // verus!
