//! Names as they are written: camel case, skewer case, domains and versions.

use vstd::prelude::*;
use vstd::std_specs::cmp::PartialEqSpecImpl;
use crate::lex::{char_len, slice, span, span_end, CharClass};
use crate::text::same_text;

verus! {

/// The mathematical value of a [`SpaceErr`].
pub ghost enum SpaceErrView {
    Status { status: u16, message: Seq<char> },
    ParseErrs(Seq<char>),
}

/// What can go wrong with names and addresses.
#[derive(Debug, Clone, PartialEq, Eq, Hash)]
pub enum SpaceErr {
    /// A failure with a status code and a message.
    Status { status: u16, message: String },
    /// A text that could not be read: what it was meant to be.
    ParseErrs(String),
}

/// The older name of [`SpaceErr`].
pub type MsgErr = SpaceErr;

impl View for SpaceErr {
    type V = SpaceErrView;

    open spec fn view(&self) -> SpaceErrView {
        match self {
            SpaceErr::Status { status, message } => SpaceErrView::Status {
                status: *status,
                message: message@,
            },
            SpaceErr::ParseErrs(what) => SpaceErrView::ParseErrs(what@),
        }
    }
}

impl SpaceErr {
    /// A failure with the status 500 and the given message.
    pub fn new(message: &str) -> (r: Self)
        ensures
            r@ == (SpaceErrView::Status { status: 500, message: message@ }),
    {
        SpaceErr::Status { status: 500, message: String::from_str(message) }
    }

    /// The message of the failure.
    pub fn to_string(&self) -> (r: String)
        ensures
            r@ == match self@ {
                SpaceErrView::Status { status, message } => message,
                SpaceErrView::ParseErrs(what) => what,
            },
    {
        match self {
            SpaceErr::Status { status, message } => message.clone(),
            SpaceErr::ParseErrs(what) => what.clone(),
        }
    }
}

/// What has a text.
pub trait Text {
    /// The text.
    spec fn text(&self) -> Seq<char>;

    /// The text.
    fn to_string(&self) -> (r: String)
        ensures
            r@ == self.text(),
    ;
}

/// Whether `semver::Version::parse` of the semver crate accepts the text.
pub uninterp spec fn semver_version(text: Seq<char>) -> bool;

/// Whether `semver::VersionReq::parse` of the semver crate accepts the text.
pub uninterp spec fn semver_version_req(text: Seq<char>) -> bool;

/// Whether both texts are accepted by the semver crate, the first as a
/// requirement and the second as a version, and
/// `semver::VersionReq::matches` says that the version meets the
/// requirement.
pub uninterp spec fn semver_matches(req: Seq<char>, version: Seq<char>) -> bool;

/// `semver::Version::parse` of the semver crate: whether the text is a
/// version.
#[verifier::external_body]
pub(crate) fn parses_as_version(text: &str) -> (r: bool)
    ensures
        r == semver_version(text@),
{
    semver::Version::parse(text).is_ok()
}

/// `semver::VersionReq::parse` of the semver crate: whether the text is a
/// requirement on versions.
#[verifier::external_body]
pub(crate) fn parses_as_version_req(text: &str) -> (r: bool)
    ensures
        r == semver_version_req(text@),
{
    semver::VersionReq::parse(text).is_ok()
}

/// `semver::VersionReq::matches` of the semver crate, on a requirement and a
/// version that are read from their texts with `semver::VersionReq::parse`
/// and `semver::Version::parse`; a text that cannot be read meets nothing and
/// is met by nothing.
#[verifier::external_body]
pub(crate) fn version_meets(req: &str, version: &str) -> (r: bool)
    ensures
        r == semver_matches(req@, version@),
{
    match (semver::VersionReq::parse(req), semver::Version::parse(version)) {
        (Ok(req), Ok(version)) => req.matches(&version),
        _ => false,
    }
}

/// Whether `text` begins with a character of `first` and goes on with
/// characters of `rest` to its end.
pub open spec fn word(text: Seq<char>, first: CharClass, rest: CharClass) -> bool {
    text.len() > 0 && first.holds(text[0]) && span_end(text, 1, rest) == text.len()
}

/// Whether `s` begins with a character of `first` and goes on with
/// characters of `rest` to its end.
pub fn is_word(s: &str, first: CharClass, rest: CharClass) -> (r: bool)
    ensures
        r == word(s@, first, rest),
{
    let n = char_len(s);
    n > 0 && first.has(s.get_char(0)) && span(s, 1, rest) == n
}

/// Where the word ends that begins at `from`, if one does.
pub open spec fn word_end(s: Seq<char>, from: int, first: CharClass, rest: CharClass) -> Option<int> {
    if 0 <= from < s.len() && first.holds(s[from]) {
        Some(span_end(s, from + 1, rest))
    } else {
        None
    }
}

/// Where the word ends that begins at `from`, if one does.
pub fn word_to(s: &str, from: usize, first: CharClass, rest: CharClass) -> (r: Option<usize>)
    ensures
        match word_end(s@, from as int, first, rest) {
            Some(end) => r == Some(end as usize) && from < end <= s@.len(),
            None => r.is_none(),
        },
        s@.len() <= usize::MAX,
{
    if from < char_len(s) && first.has(s.get_char(from)) {
        Some(span(s, from + 1, rest))
    } else {
        None
    }
}

/// A name in camel case: a capital letter, then letters and digits.
#[derive(Debug, Eq, Hash)]
pub struct CamelCase {
    pub string: String,
}

impl View for CamelCase {
    type V = Seq<char>;

    open spec fn view(&self) -> Seq<char> {
        self.string@
    }
}

impl DeepView for CamelCase {
    type V = Seq<char>;

    open spec fn deep_view(&self) -> Seq<char> {
        self@
    }
}

impl Clone for CamelCase {
    fn clone(&self) -> (r: Self)
        ensures
            r@ == self@,
    {
        CamelCase { string: self.string.clone() }
    }
}

impl PartialEq for CamelCase {
    fn eq(&self, other: &Self) -> (r: bool) {
        same_text(self.string.as_str(), other.string.as_str())
    }
}

impl PartialEqSpecImpl for CamelCase {
    open spec fn obeys_eq_spec() -> bool {
        true
    }

    open spec fn eq_spec(&self, other: &Self) -> bool {
        self@ == other@
    }
}

impl CamelCase {
    /// Whether `text` is a name in camel case.
    pub open spec fn valid(text: Seq<char>) -> bool {
        word(text, CharClass::Upper, CharClass::AlphaNumeric)
    }

    /// Reads a name in camel case from the whole of `s`.
    pub fn from_str(s: &str) -> (r: Result<Self, SpaceErr>)
        ensures
            match r {
                Ok(found) => Self::valid(s@) && found@ == s@,
                Err(error) => !Self::valid(s@) && error@ == SpaceErrView::ParseErrs("CamelCase"@),
            },
    {
        if is_word(s, CharClass::Upper, CharClass::AlphaNumeric) {
            Ok(CamelCase { string: String::from_str(s) })
        } else {
            Err(SpaceErr::ParseErrs(String::from_str("CamelCase")))
        }
    }

    /// The text.
    pub fn as_str(&self) -> (r: &str)
        ensures
            r@ == self@,
    {
        self.string.as_str()
    }
}

impl Text for CamelCase {
    open spec fn text(&self) -> Seq<char> {
        self@
    }

    fn to_string(&self) -> (r: String) {
        self.string.clone()
    }
}

/// A name in skewer case: a small letter, then small letters, digits and
/// hyphens.
#[derive(Debug, Eq, Hash)]
pub struct SkewerCase {
    pub string: String,
}

impl View for SkewerCase {
    type V = Seq<char>;

    open spec fn view(&self) -> Seq<char> {
        self.string@
    }
}

impl DeepView for SkewerCase {
    type V = Seq<char>;

    open spec fn deep_view(&self) -> Seq<char> {
        self@
    }
}

impl Clone for SkewerCase {
    fn clone(&self) -> (r: Self)
        ensures
            r@ == self@,
    {
        SkewerCase { string: self.string.clone() }
    }
}

impl PartialEq for SkewerCase {
    fn eq(&self, other: &Self) -> (r: bool) {
        same_text(self.string.as_str(), other.string.as_str())
    }
}

impl PartialEqSpecImpl for SkewerCase {
    open spec fn obeys_eq_spec() -> bool {
        true
    }

    open spec fn eq_spec(&self, other: &Self) -> bool {
        self@ == other@
    }
}

impl SkewerCase {
    /// Whether `text` is a name in skewer case.
    pub open spec fn valid(text: Seq<char>) -> bool {
        word(text, CharClass::Lower, CharClass::LowerAlphaNumericHyphen)
    }

    /// Reads a name in skewer case from the whole of `s`.
    pub fn from_str(s: &str) -> (r: Result<Self, SpaceErr>)
        ensures
            match r {
                Ok(found) => Self::valid(s@) && found@ == s@,
                Err(error) => !Self::valid(s@) && error@ == SpaceErrView::ParseErrs("SkewerCase"@),
            },
    {
        if is_word(s, CharClass::Lower, CharClass::LowerAlphaNumericHyphen) {
            Ok(SkewerCase { string: String::from_str(s) })
        } else {
            Err(SpaceErr::ParseErrs(String::from_str("SkewerCase")))
        }
    }

    /// The text.
    pub fn as_str(&self) -> (r: &str)
        ensures
            r@ == self@,
    {
        self.string.as_str()
    }
}

impl Text for SkewerCase {
    open spec fn text(&self) -> Seq<char> {
        self@
    }

    fn to_string(&self) -> (r: String) {
        self.string.clone()
    }
}

/// A domain: a small letter, then small letters, digits, hyphens and dots.
#[derive(Debug, Eq, Hash)]
pub struct Domain {
    pub string: String,
}

impl View for Domain {
    type V = Seq<char>;

    open spec fn view(&self) -> Seq<char> {
        self.string@
    }
}

impl DeepView for Domain {
    type V = Seq<char>;

    open spec fn deep_view(&self) -> Seq<char> {
        self@
    }
}

impl Clone for Domain {
    fn clone(&self) -> (r: Self)
        ensures
            r@ == self@,
    {
        Domain { string: self.string.clone() }
    }
}

impl PartialEq for Domain {
    fn eq(&self, other: &Self) -> (r: bool) {
        same_text(self.string.as_str(), other.string.as_str())
    }
}

impl PartialEqSpecImpl for Domain {
    open spec fn obeys_eq_spec() -> bool {
        true
    }

    open spec fn eq_spec(&self, other: &Self) -> bool {
        self@ == other@
    }
}

impl Domain {
    /// Whether `text` is a domain.
    pub open spec fn valid(text: Seq<char>) -> bool {
        word(text, CharClass::Lower, CharClass::LowerAlphaNumericHyphenDot)
    }

    /// Reads a domain from the whole of `s`.
    pub fn from_str(s: &str) -> (r: Result<Self, SpaceErr>)
        ensures
            match r {
                Ok(found) => Self::valid(s@) && found@ == s@,
                Err(error) => !Self::valid(s@) && error@ == SpaceErrView::ParseErrs("Domain"@),
            },
    {
        if is_word(s, CharClass::Lower, CharClass::LowerAlphaNumericHyphenDot) {
            Ok(Domain { string: String::from_str(s) })
        } else {
            Err(SpaceErr::ParseErrs(String::from_str("Domain")))
        }
    }

    /// The text.
    pub fn as_str(&self) -> (r: &str)
        ensures
            r@ == self@,
    {
        self.string.as_str()
    }
}

impl Text for Domain {
    open spec fn text(&self) -> Seq<char> {
        self@
    }

    fn to_string(&self) -> (r: String) {
        self.string.clone()
    }
}

/// A version, as the semver crate reads it.
#[derive(Debug, Eq, Hash)]
pub struct Version {
    pub version: String,
}

impl View for Version {
    type V = Seq<char>;

    open spec fn view(&self) -> Seq<char> {
        self.version@
    }
}

impl DeepView for Version {
    type V = Seq<char>;

    open spec fn deep_view(&self) -> Seq<char> {
        self@
    }
}

impl Clone for Version {
    fn clone(&self) -> (r: Self)
        ensures
            r@ == self@,
    {
        Version { version: self.version.clone() }
    }
}

impl PartialEq for Version {
    fn eq(&self, other: &Self) -> (r: bool) {
        same_text(self.version.as_str(), other.version.as_str())
    }
}

impl PartialEqSpecImpl for Version {
    open spec fn obeys_eq_spec() -> bool {
        true
    }

    open spec fn eq_spec(&self, other: &Self) -> bool {
        self@ == other@
    }
}

impl Version {
    /// Whether `text` is a version.
    pub open spec fn valid(text: Seq<char>) -> bool {
        semver_version(text)
    }

    /// Reads a version from the whole of `s`.
    pub fn from_str(s: &str) -> (r: Result<Self, SpaceErr>)
        ensures
            match r {
                Ok(found) => Self::valid(s@) && found@ == s@,
                Err(error) => !Self::valid(s@) && error@ == SpaceErrView::ParseErrs("Version"@),
            },
    {
        if parses_as_version(s) {
            Ok(Version { version: String::from_str(s) })
        } else {
            Err(SpaceErr::ParseErrs(String::from_str("Version")))
        }
    }

    /// The text.
    pub fn as_str(&self) -> (r: &str)
        ensures
            r@ == self@,
    {
        self.version.as_str()
    }
}

impl Text for Version {
    open spec fn text(&self) -> Seq<char> {
        self@
    }

    fn to_string(&self) -> (r: String) {
        self.version.clone()
    }
}

/// A requirement on versions, as the semver crate reads it.
#[derive(Debug, Eq, Hash)]
pub struct VersionReq {
    pub version: String,
}

impl View for VersionReq {
    type V = Seq<char>;

    open spec fn view(&self) -> Seq<char> {
        self.version@
    }
}

impl DeepView for VersionReq {
    type V = Seq<char>;

    open spec fn deep_view(&self) -> Seq<char> {
        self@
    }
}

impl Clone for VersionReq {
    fn clone(&self) -> (r: Self)
        ensures
            r@ == self@,
    {
        VersionReq { version: self.version.clone() }
    }
}

impl PartialEq for VersionReq {
    fn eq(&self, other: &Self) -> (r: bool) {
        same_text(self.version.as_str(), other.version.as_str())
    }
}

impl PartialEqSpecImpl for VersionReq {
    open spec fn obeys_eq_spec() -> bool {
        true
    }

    open spec fn eq_spec(&self, other: &Self) -> bool {
        self@ == other@
    }
}

impl VersionReq {
    /// Whether `text` is a requirement on versions.
    pub open spec fn valid(text: Seq<char>) -> bool {
        semver_version_req(text)
    }

    /// Reads a requirement on versions from the whole of `s`.
    pub fn from_str(s: &str) -> (r: Result<Self, SpaceErr>)
        ensures
            match r {
                Ok(found) => Self::valid(s@) && found@ == s@,
                Err(error) => !Self::valid(s@) && error@ == SpaceErrView::ParseErrs("VersionReq"@),
            },
    {
        if parses_as_version_req(s) {
            Ok(VersionReq { version: String::from_str(s) })
        } else {
            Err(SpaceErr::ParseErrs(String::from_str("VersionReq")))
        }
    }

    /// The text.
    pub fn as_str(&self) -> (r: &str)
        ensures
            r@ == self@,
    {
        self.version.as_str()
    }
}

impl Text for VersionReq {
    open spec fn text(&self) -> Seq<char> {
        self@
    }

    fn to_string(&self) -> (r: String) {
        self.version.clone()
    }
}

/// Where the version ends that begins at `from`, if one does: a run of what
/// a version is written with, which the semver crate reads as a version.
pub open spec fn version_token_end(s: Seq<char>, from: int) -> Option<int> {
    let end = span_end(s, from, CharClass::VersionText);
    if 0 <= from < end <= s.len() && semver_version(s.subrange(from, end)) {
        Some(end)
    } else {
        None
    }
}

/// Where the requirement on versions ends that begins at `from`, if one
/// does: a run of what a requirement is written with, which the semver crate
/// reads as a requirement.
pub open spec fn version_req_token_end(s: Seq<char>, from: int) -> Option<int> {
    let end = span_end(s, from, CharClass::VersionReqText);
    if 0 <= from < end <= s.len() && semver_version_req(s.subrange(from, end)) {
        Some(end)
    } else {
        None
    }
}

/// What a reader found that took the text from `from` to `end` as it
/// stands.
pub open spec fn taken(s: Seq<char>, from: int, end: Option<int>) -> Option<(Seq<char>, int)> {
    match end {
        Some(end) => Some((s.subrange(from, end), end)),
        None => None,
    }
}

/// Reads a name in camel case at `from`.
pub fn camel_case(s: &str, from: usize) -> (r: Option<(CamelCase, usize)>)
    ensures
        match taken(
            s@,
            from as int,
            word_end(s@, from as int, CharClass::Upper, CharClass::AlphaNumeric),
        ) {
            Some(found) => r matches Some(got) && got.0@ == found.0 && got.1 == found.1 && from
                < got.1 <= s@.len(),
            None => r is None,
        },
        s@.len() <= usize::MAX,
{
    match word_to(s, from, CharClass::Upper, CharClass::AlphaNumeric) {
        Some(end) => Some((CamelCase { string: slice(s, from, end) }, end)),
        None => None,
    }
}

/// Reads a name in skewer case at `from`.
pub fn skewer_case(s: &str, from: usize) -> (r: Option<(SkewerCase, usize)>)
    ensures
        match taken(
            s@,
            from as int,
            word_end(s@, from as int, CharClass::Lower, CharClass::LowerAlphaNumericHyphen),
        ) {
            Some(found) => r matches Some(got) && got.0@ == found.0 && got.1 == found.1 && from
                < got.1 <= s@.len(),
            None => r is None,
        },
        s@.len() <= usize::MAX,
{
    match word_to(s, from, CharClass::Lower, CharClass::LowerAlphaNumericHyphen) {
        Some(end) => Some((SkewerCase { string: slice(s, from, end) }, end)),
        None => None,
    }
}

/// Reads a domain at `from`.
pub fn domain(s: &str, from: usize) -> (r: Option<(Domain, usize)>)
    ensures
        match taken(
            s@,
            from as int,
            word_end(s@, from as int, CharClass::Lower, CharClass::LowerAlphaNumericHyphenDot),
        ) {
            Some(found) => r matches Some(got) && got.0@ == found.0 && got.1 == found.1 && from
                < got.1 <= s@.len(),
            None => r is None,
        },
        s@.len() <= usize::MAX,
{
    match word_to(s, from, CharClass::Lower, CharClass::LowerAlphaNumericHyphenDot) {
        Some(end) => Some((Domain { string: slice(s, from, end) }, end)),
        None => None,
    }
}

/// Reads a version at `from`.
pub fn version(s: &str, from: usize) -> (r: Option<(Version, usize)>)
    ensures
        match taken(s@, from as int, version_token_end(s@, from as int)) {
            Some(found) => r matches Some(got) && got.0@ == found.0 && got.1 == found.1 && from
                < got.1 <= s@.len(),
            None => r is None,
        },
        s@.len() <= usize::MAX,
{
    if from >= char_len(s) {
        return None;
    }
    let end = span(s, from, CharClass::VersionText);
    if end == from {
        return None;
    }
    let token = slice(s, from, end);
    if parses_as_version(token.as_str()) {
        Some((Version { version: token }, end))
    } else {
        None
    }
}

/// Reads a requirement on versions at `from`.
pub fn version_req(s: &str, from: usize) -> (r: Option<(VersionReq, usize)>)
    ensures
        match taken(s@, from as int, version_req_token_end(s@, from as int)) {
            Some(found) => r matches Some(got) && got.0@ == found.0 && got.1 == found.1 && from
                < got.1 <= s@.len(),
            None => r is None,
        },
        s@.len() <= usize::MAX,
{
    if from >= char_len(s) {
        return None;
    }
    let end = span(s, from, CharClass::VersionReqText);
    if end == from {
        return None;
    }
    let token = slice(s, from, end);
    if parses_as_version_req(token.as_str()) {
        Some((VersionReq { version: token }, end))
    } else {
        None
    }
}

} // verus!
