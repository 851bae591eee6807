//! Addresses of resources and the kinds of resource, as they are written.

use vstd::prelude::*;
use crate::error::Error;
use crate::lex::{
    char_at, char_len, has_tag_at, is_char_at, rest, slice, span, span_end, tag_at, CharClass,
};
use crate::text::same_text;

verus! {

/// The mathematical value of a [`ParseError`].
pub ghost struct ParseErrorView {
    pub context: Seq<char>,
}

/// A text that could not be read: the name of what was being read when the
/// reading failed.
#[derive(Debug, PartialEq, Eq, Hash)]
pub struct ParseError {
    pub context: String,
}

impl View for ParseError {
    type V = ParseErrorView;

    open spec fn view(&self) -> ParseErrorView {
        ParseErrorView {
            context: self.context@,
        }
    }
}

impl DeepView for ParseError {
    type V = ParseErrorView;

    open spec fn deep_view(&self) -> ParseErrorView {
        self@
    }
}

impl Clone for ParseError {
    fn clone(&self) -> (r: Self)
        ensures
            r@ == self@,
    {
        let r = ParseError {
            context: self.context.clone(),
        };
        r
    }
}

/// The mathematical value of a [`Specific`].
pub ghost struct SpecificView {
    pub vendor: Seq<char>,
    pub product: Seq<char>,
    pub variant: Seq<char>,
    pub version: Seq<char>,
}

/// A product of a vendor, in a variant and a version.
#[derive(Debug, PartialEq, Eq, Hash)]
pub struct Specific {
    pub vendor: String,
    pub product: String,
    pub variant: String,
    pub version: String,
}

impl View for Specific {
    type V = SpecificView;

    open spec fn view(&self) -> SpecificView {
        SpecificView {
            vendor: self.vendor@,
            product: self.product@,
            variant: self.variant@,
            version: self.version@,
        }
    }
}

impl DeepView for Specific {
    type V = SpecificView;

    open spec fn deep_view(&self) -> SpecificView {
        self@
    }
}

impl Clone for Specific {
    fn clone(&self) -> (r: Self)
        ensures
            r@ == self@,
    {
        let r = Specific {
            vendor: self.vendor.clone(),
            product: self.product.clone(),
            variant: self.variant.clone(),
            version: self.version.clone(),
        };
        r
    }
}

/// The mathematical value of a [`ResourceKindParts`].
pub ghost struct ResourceKindPartsView {
    pub resource_type: Seq<char>,
    pub kind: Option<Seq<char>>,
    pub specific: Option<SpecificView>,
}

/// The parts of the kind of a resource, as written: the type, then the kind,
/// then the specific.
#[derive(Debug, PartialEq, Eq, Hash)]
pub struct ResourceKindParts {
    pub resource_type: String,
    pub kind: Option<String>,
    pub specific: Option<Specific>,
}

impl View for ResourceKindParts {
    type V = ResourceKindPartsView;

    open spec fn view(&self) -> ResourceKindPartsView {
        ResourceKindPartsView {
            resource_type: self.resource_type@,
            kind: self.kind.deep_view(),
            specific: self.specific.deep_view(),
        }
    }
}

impl DeepView for ResourceKindParts {
    type V = ResourceKindPartsView;

    open spec fn deep_view(&self) -> ResourceKindPartsView {
        self@
    }
}

impl Clone for ResourceKindParts {
    fn clone(&self) -> (r: Self)
        ensures
            r@ == self@,
    {
        let r = ResourceKindParts {
            resource_type: self.resource_type.clone(),
            kind: self.kind.clone(),
            specific: self.specific.clone(),
        };
        r
    }
}

/// The mathematical value of a [`DatabaseKind`].
pub ghost enum DatabaseKindView {
    Native,
    Relational(SpecificView),
}

/// The kinds of database.
#[derive(Debug, PartialEq, Eq, Hash)]
pub enum DatabaseKind {
    Native,
    Relational(Specific),
}

impl View for DatabaseKind {
    type V = DatabaseKindView;

    open spec fn view(&self) -> DatabaseKindView {
        match self {
            DatabaseKind::Native => DatabaseKindView::Native,
            DatabaseKind::Relational(a) => DatabaseKindView::Relational(a@),
        }
    }
}

impl DeepView for DatabaseKind {
    type V = DatabaseKindView;

    open spec fn deep_view(&self) -> DatabaseKindView {
        self@
    }
}

impl Clone for DatabaseKind {
    fn clone(&self) -> (r: Self)
        ensures
            r@ == self@,
    {
        match self {
            DatabaseKind::Native => DatabaseKind::Native,
            DatabaseKind::Relational(a) => DatabaseKind::Relational(a.clone()),
        }
    }
}

/// The mathematical value of a [`ResourceKind`].
pub ghost enum ResourceKindView {
    Space,
    SubSpace,
    App,
    Actor,
    User,
    File,
    FileSystem,
    Artifact,
    Database(DatabaseKindView),
}

/// The kind of a resource.
#[derive(Debug, PartialEq, Eq, Hash)]
pub enum ResourceKind {
    Space,
    SubSpace,
    App,
    Actor,
    User,
    File,
    FileSystem,
    Artifact,
    Database(DatabaseKind),
}

impl View for ResourceKind {
    type V = ResourceKindView;

    open spec fn view(&self) -> ResourceKindView {
        match self {
            ResourceKind::Space => ResourceKindView::Space,
            ResourceKind::SubSpace => ResourceKindView::SubSpace,
            ResourceKind::App => ResourceKindView::App,
            ResourceKind::Actor => ResourceKindView::Actor,
            ResourceKind::User => ResourceKindView::User,
            ResourceKind::File => ResourceKindView::File,
            ResourceKind::FileSystem => ResourceKindView::FileSystem,
            ResourceKind::Artifact => ResourceKindView::Artifact,
            ResourceKind::Database(a) => ResourceKindView::Database(a@),
        }
    }
}

impl DeepView for ResourceKind {
    type V = ResourceKindView;

    open spec fn deep_view(&self) -> ResourceKindView {
        self@
    }
}

impl Clone for ResourceKind {
    fn clone(&self) -> (r: Self)
        ensures
            r@ == self@,
    {
        match self {
            ResourceKind::Space => ResourceKind::Space,
            ResourceKind::SubSpace => ResourceKind::SubSpace,
            ResourceKind::App => ResourceKind::App,
            ResourceKind::Actor => ResourceKind::Actor,
            ResourceKind::User => ResourceKind::User,
            ResourceKind::File => ResourceKind::File,
            ResourceKind::FileSystem => ResourceKind::FileSystem,
            ResourceKind::Artifact => ResourceKind::Artifact,
            ResourceKind::Database(a) => ResourceKind::Database(a.clone()),
        }
    }
}

/// The mathematical value of a [`ResourceAddress`].
pub ghost struct ResourceAddressView {
    pub path: Seq<char>,
    pub resource_type: Seq<char>,
}

/// The address of a resource: its path and the name of its type.
#[derive(Debug, PartialEq, Eq, Hash)]
pub struct ResourceAddress {
    pub path: String,
    pub resource_type: String,
}

impl View for ResourceAddress {
    type V = ResourceAddressView;

    open spec fn view(&self) -> ResourceAddressView {
        ResourceAddressView {
            path: self.path@,
            resource_type: self.resource_type@,
        }
    }
}

impl DeepView for ResourceAddress {
    type V = ResourceAddressView;

    open spec fn deep_view(&self) -> ResourceAddressView {
        self@
    }
}

impl Clone for ResourceAddress {
    fn clone(&self) -> (r: Self)
        ensures
            r@ == self@,
    {
        let r = ResourceAddress {
            path: self.path.clone(),
            resource_type: self.resource_type.clone(),
        };
        r
    }
}

/// The mathematical value of a [`ResourceAddressKind`].
pub ghost struct ResourceAddressKindView {
    pub address: ResourceAddressView,
    pub kind: ResourceKindView,
}

/// The address of a resource together with its kind.
#[derive(Debug, PartialEq, Eq, Hash)]
pub struct ResourceAddressKind {
    pub address: ResourceAddress,
    pub kind: ResourceKind,
}

impl View for ResourceAddressKind {
    type V = ResourceAddressKindView;

    open spec fn view(&self) -> ResourceAddressKindView {
        ResourceAddressKindView {
            address: self.address@,
            kind: self.kind@,
        }
    }
}

impl DeepView for ResourceAddressKind {
    type V = ResourceAddressKindView;

    open spec fn deep_view(&self) -> ResourceAddressKindView {
        self@
    }
}

impl Clone for ResourceAddressKind {
    fn clone(&self) -> (r: Self)
        ensures
            r@ == self@,
    {
        let r = ResourceAddressKind {
            address: self.address.clone(),
            kind: self.kind.clone(),
        };
        r
    }
}

/// A domain as text.
pub type Domain = String;

impl ParseError {
    /// The failure to read what `context` names.
    pub fn new(context: &str) -> (r: Self)
        ensures
            r@.context == context@,
    {
        ParseError { context: String::from_str(context) }
    }
}

/// Where the labels end that begin at `from`: runs of `class`, each followed
/// by a dot, as many as there are.
pub open spec fn labels_end(s: Seq<char>, from: int, class: CharClass) -> int
    decreases s.len() - from,
{
    let end = span_end(s, from, class);
    if 0 <= from < end && end < s.len() && s[end] == '.' {
        labels_end(s, end + 1, class)
    } else {
        from
    }
}

/// Where the run of at least one character of `class` ends that begins at
/// `from`, if there is one.
pub open spec fn run_end(s: Seq<char>, from: int, class: CharClass) -> Option<int> {
    if span_end(s, from, class) > from {
        Some(span_end(s, from, class))
    } else {
        None
    }
}

/// Where the host ends that begins at `from`: labels of letters, digits and
/// hyphens with a dot after each and letters at the end or, failing that, a
/// single label.
pub open spec fn host_end(s: Seq<char>, from: int) -> Option<int> {
    let labels = labels_end(s, from, CharClass::AlphaNumericHyphen);
    if labels > from && span_end(s, labels, CharClass::Alpha) > labels {
        Some(span_end(s, labels, CharClass::Alpha))
    } else {
        run_end(s, from, CharClass::AlphaNumericHyphen)
    }
}

/// Where the domain ends that begins at `from`: two or more labels of small
/// letters, digits and hyphens, with a dot between them.
pub open spec fn domain_end(s: Seq<char>, from: int) -> Option<int> {
    let labels = labels_end(s, from, CharClass::LowerAlphaNumericHyphen);
    if labels > from {
        run_end(s, labels, CharClass::LowerAlphaNumericHyphen)
    } else {
        None
    }
}

/// Where the three numbers of a version end that begin at `from`: digits, a
/// dot, digits, a dot, digits.
pub open spec fn version_numbers_end(s: Seq<char>, from: int) -> Option<int> {
    let major = span_end(s, from, CharClass::Digit);
    let minor = span_end(s, major + 1, CharClass::Digit);
    let patch = span_end(s, minor + 1, CharClass::Digit);
    if major > from && char_at(s, major, '.') && minor > major + 1 && char_at(s, minor, '.')
        && patch > minor + 1 {
        Some(patch)
    } else {
        None
    }
}

/// Where the version ends that begins at `from`: the three numbers and,
/// where a hyphen and a label follow them, these too.
pub open spec fn version_end(s: Seq<char>, from: int) -> Option<int> {
    match version_numbers_end(s, from) {
        Some(numbers) => if char_at(s, numbers, '-') && span_end(
            s,
            numbers + 1,
            CharClass::LowerAlphaNumericHyphen,
        ) > numbers + 1 {
            Some(span_end(s, numbers + 1, CharClass::LowerAlphaNumericHyphen))
        } else {
            Some(numbers)
        },
        None => None,
    }
}

/// The specific that begins at `from`, and where it ends: a domain, a
/// product, a variant and a version, with a colon between them.
pub open spec fn specific_at(s: Seq<char>, from: int) -> Option<(SpecificView, int)> {
    match domain_end(s, from) {
        Some(vendor) => {
            let product = span_end(s, vendor + 1, CharClass::LowerAlphaNumericHyphen);
            let variant = span_end(s, product + 1, CharClass::LowerAlphaNumericHyphen);
            if char_at(s, vendor, ':') && product > vendor + 1 && char_at(s, product, ':')
                && variant > product + 1 && char_at(s, variant, ':') {
                match version_end(s, variant + 1) {
                    Some(version) => Some(
                        (
                            SpecificView {
                                vendor: s.subrange(from, vendor),
                                product: s.subrange(vendor + 1, product),
                                variant: s.subrange(product + 1, variant),
                                version: s.subrange(variant + 1, version),
                            },
                            version,
                        ),
                    ),
                    None => None,
                }
            } else {
                None
            }
        },
        None => None,
    }
}

/// The specific in angle brackets that begins at `from`, and where it ends.
pub open spec fn bracketed_specific_at(s: Seq<char>, from: int) -> Option<(SpecificView, int)> {
    if char_at(s, from, '<') {
        match specific_at(s, from + 1) {
            Some(found) => if char_at(s, found.1, '>') {
                Some((found.0, found.1 + 1))
            } else {
                None
            },
            None => None,
        }
    } else {
        None
    }
}

/// The kind with its optional specific, in angle brackets, that begins at
/// `from`, and where it ends.
pub open spec fn bracketed_kind_at(s: Seq<char>, from: int) -> Option<
    (Seq<char>, Option<SpecificView>, int),
> {
    let name = span_end(s, from + 1, CharClass::Alpha);
    if char_at(s, from, '<') && name > from + 1 {
        match bracketed_specific_at(s, name) {
            Some(found) => if char_at(s, found.1, '>') {
                Some((s.subrange(from + 1, name), Some(found.0), found.1 + 1))
            } else {
                None
            },
            None => if char_at(s, name, '>') {
                Some((s.subrange(from + 1, name), None, name + 1))
            } else {
                None
            },
        }
    } else {
        None
    }
}

/// The kind of a resource that begins at `from`, and where it ends: in
/// angle brackets the type and, nested in brackets of their own, the kind
/// and the specific, as far as they are given.
pub open spec fn kind_at(s: Seq<char>, from: int) -> Option<(ResourceKindPartsView, int)> {
    let name = span_end(s, from + 1, CharClass::Alpha);
    if char_at(s, from, '<') && name > from + 1 {
        match bracketed_kind_at(s, name) {
            Some(found) => if char_at(s, found.2, '>') {
                Some(
                    (
                        ResourceKindPartsView {
                            resource_type: s.subrange(from + 1, name),
                            kind: Some(found.0),
                            specific: found.1,
                        },
                        found.2 + 1,
                    ),
                )
            } else {
                None
            },
            None => if char_at(s, name, '>') {
                Some(
                    (
                        ResourceKindPartsView {
                            resource_type: s.subrange(from + 1, name),
                            kind: None,
                            specific: None,
                        },
                        name + 1,
                    ),
                )
            } else {
                None
            },
        }
    } else {
        None
    }
}

/// What reading a run of `class` at the head of `input` comes to.
pub open spec fn run_result(input: Seq<char>, class: CharClass) -> Option<(Seq<char>, Seq<char>)> {
    match run_end(input, 0, class) {
        Some(end) => Some((input.skip(end), input.subrange(0, end))),
        None => None,
    }
}

/// What reading text that ends at `end` at the head of `input` comes to: what
/// is left, and what was read.
pub open spec fn read_result(input: Seq<char>, end: Option<int>) -> Option<(Seq<char>, Seq<char>)> {
    match end {
        Some(end) => Some((input.skip(end), input.subrange(0, end))),
        None => None,
    }
}

/// Where the labels end that begin at `from`.
fn labels_to(s: &str, from: usize, class: CharClass) -> (r: usize)
    requires
        from <= s@.len(),
    ensures
        r == labels_end(s@, from as int, class),
        from <= r <= s@.len(),
        s@.len() <= usize::MAX,
{
    let mut at = from;
    loop
        invariant
            from <= at <= s@.len(),
            labels_end(s@, at as int, class) == labels_end(s@, from as int, class),
        decreases s@.len() - at,
    {
        let end = span(s, at, class);
        if end > at && is_char_at(s, end, '.') {
            at = end + 1;
        } else {
            return at;
        }
    }
}

/// Where the run of at least one character of `class` ends that begins at
/// `from`.
fn run_to(s: &str, from: usize, class: CharClass) -> (r: Option<usize>)
    requires
        from <= s@.len(),
    ensures
        match run_end(s@, from as int, class) {
            Some(end) => r == Some(end as usize) && from < end <= s@.len() && s@.len() <= usize::MAX,
            None => r.is_none(),
        },
{
    let end = span(s, from, class);
    if end > from {
        Some(end)
    } else {
        None
    }
}

/// Where the host ends that begins at `from`.
fn host_to(s: &str, from: usize) -> (r: Option<usize>)
    requires
        from <= s@.len(),
    ensures
        match host_end(s@, from as int) {
            Some(end) => r == Some(end as usize) && from < end <= s@.len() && s@.len() <= usize::MAX,
            None => r.is_none(),
        },
{
    let labels = labels_to(s, from, CharClass::AlphaNumericHyphen);
    if labels > from {
        let end = span(s, labels, CharClass::Alpha);
        if end > labels {
            return Some(end);
        }
    }
    run_to(s, from, CharClass::AlphaNumericHyphen)
}

/// Where the domain ends that begins at `from`.
fn domain_to(s: &str, from: usize) -> (r: Option<usize>)
    requires
        from <= s@.len(),
    ensures
        match domain_end(s@, from as int) {
            Some(end) => r == Some(end as usize) && from < end <= s@.len() && s@.len() <= usize::MAX,
            None => r.is_none(),
        },
{
    let labels = labels_to(s, from, CharClass::LowerAlphaNumericHyphen);
    if labels > from {
        run_to(s, labels, CharClass::LowerAlphaNumericHyphen)
    } else {
        None
    }
}

/// Where the run of digits ends that follows the dot at `dot`, if there is
/// such a run.
fn digits_after_dot(s: &str, dot: usize) -> (r: Option<usize>)
    requires
        dot <= s@.len(),
    ensures
        r matches Some(end) ==> char_at(s@, dot as int, '.') && end == span_end(
            s@,
            dot + 1,
            CharClass::Digit,
        ) && dot + 1 < end <= s@.len(),
        r is None ==> !char_at(s@, dot as int, '.') || span_end(s@, dot + 1, CharClass::Digit)
            <= dot + 1,
{
    if !is_char_at(s, dot, '.') {
        return None;
    }
    let end = span(s, dot + 1, CharClass::Digit);
    if end > dot + 1 {
        Some(end)
    } else {
        None
    }
}

/// Where the three numbers of a version end that begin at `from`.
fn version_numbers_to(s: &str, from: usize) -> (r: Option<usize>)
    requires
        from <= s@.len(),
    ensures
        match version_numbers_end(s@, from as int) {
            Some(end) => r == Some(end as usize) && from < end <= s@.len() && s@.len() <= usize::MAX,
            None => r.is_none(),
        },
{
    let major = span(s, from, CharClass::Digit);
    if major == from {
        return None;
    }
    match digits_after_dot(s, major) {
        Some(minor) => match digits_after_dot(s, minor) {
            Some(patch) => Some(patch),
            None => None,
        },
        None => None,
    }
}

/// Where the version ends that begins at `from`.
fn version_to(s: &str, from: usize) -> (r: Option<usize>)
    requires
        from <= s@.len(),
    ensures
        match version_end(s@, from as int) {
            Some(end) => r == Some(end as usize) && from < end <= s@.len() && s@.len() <= usize::MAX,
            None => r.is_none(),
        },
{
    match version_numbers_to(s, from) {
        Some(numbers) => {
            if is_char_at(s, numbers, '-') {
                let label = span(s, numbers + 1, CharClass::LowerAlphaNumericHyphen);
                if label > numbers + 1 {
                    return Some(label);
                }
            }
            Some(numbers)
        },
        None => None,
    }
}

/// Where the label ends that follows the colon at `colon`, if a label does.
fn label_after_colon(s: &str, colon: usize) -> (r: Option<usize>)
    requires
        colon <= s@.len(),
    ensures
        r matches Some(end) ==> char_at(s@, colon as int, ':') && end == span_end(
            s@,
            colon + 1,
            CharClass::LowerAlphaNumericHyphen,
        ) && colon + 1 < end <= s@.len(),
        r is None ==> !char_at(s@, colon as int, ':') || span_end(
            s@,
            colon + 1,
            CharClass::LowerAlphaNumericHyphen,
        ) <= colon + 1,
{
    if !is_char_at(s, colon, ':') {
        return None;
    }
    let end = span(s, colon + 1, CharClass::LowerAlphaNumericHyphen);
    if end > colon + 1 {
        Some(end)
    } else {
        None
    }
}

/// The specific that begins at `from`, and where it ends.
fn specific_from(s: &str, from: usize) -> (r: Option<(Specific, usize)>)
    requires
        from <= s@.len(),
    ensures
        match specific_at(s@, from as int) {
            Some(found) => r matches Some(got) && got.0@ == found.0 && got.1 == found.1 && from
                < got.1 <= s@.len() && s@.len() <= usize::MAX,
            None => r.is_none(),
        },
{
    let vendor = match domain_to(s, from) {
        Some(vendor) => vendor,
        None => {
            return None;
        },
    };
    let product = match label_after_colon(s, vendor) {
        Some(product) => product,
        None => {
            return None;
        },
    };
    let variant = match label_after_colon(s, product) {
        Some(variant) => variant,
        None => {
            return None;
        },
    };
    if !is_char_at(s, variant, ':') {
        return None;
    }
    match version_to(s, variant + 1) {
        Some(version) => Some(
            (
                Specific {
                    vendor: slice(s, from, vendor),
                    product: slice(s, vendor + 1, product),
                    variant: slice(s, product + 1, variant),
                    version: slice(s, variant + 1, version),
                },
                version,
            ),
        ),
        None => None,
    }
}

/// The specific in angle brackets that begins at `from`, and where it ends.
fn bracketed_specific_from(s: &str, from: usize) -> (r: Option<(Specific, usize)>)
    requires
        from <= s@.len(),
    ensures
        match bracketed_specific_at(s@, from as int) {
            Some(found) => r matches Some(got) && got.0@ == found.0 && got.1 == found.1 && from
                < got.1 <= s@.len() && s@.len() <= usize::MAX,
            None => r.is_none(),
        },
{
    if !is_char_at(s, from, '<') {
        return None;
    }
    match specific_from(s, from + 1) {
        Some(found) => {
            if is_char_at(s, found.1, '>') {
                Some((found.0, found.1 + 1))
            } else {
                None
            }
        },
        None => None,
    }
}

/// The kind with its optional specific, in angle brackets, that begins at
/// `from`, and where it ends.
fn bracketed_kind_from(s: &str, from: usize) -> (r: Option<(String, Option<Specific>, usize)>)
    requires
        from <= s@.len(),
    ensures
        match bracketed_kind_at(s@, from as int) {
            Some(found) => r matches Some(got) && got.0@ == found.0 && got.1.deep_view() == found.1
                && got.2 == found.2 && from < got.2 <= s@.len() && s@.len() <= usize::MAX,
            None => r.is_none(),
        },
{
    if !is_char_at(s, from, '<') {
        return None;
    }
    let name = span(s, from + 1, CharClass::Alpha);
    if name == from + 1 {
        return None;
    }
    match bracketed_specific_from(s, name) {
        Some(found) => {
            if is_char_at(s, found.1, '>') {
                Some((slice(s, from + 1, name), Some(found.0), found.1 + 1))
            } else {
                None
            }
        },
        None => {
            if is_char_at(s, name, '>') {
                Some((slice(s, from + 1, name), None, name + 1))
            } else {
                None
            }
        },
    }
}

/// The kind of a resource that begins at `from`, and where it ends.
fn kind_from(s: &str, from: usize) -> (r: Option<(ResourceKindParts, usize)>)
    requires
        from <= s@.len(),
    ensures
        match kind_at(s@, from as int) {
            Some(found) => r matches Some(got) && got.0@ == found.0 && got.1 == found.1 && from
                < got.1 <= s@.len() && s@.len() <= usize::MAX,
            None => r.is_none(),
        },
{
    if !is_char_at(s, from, '<') {
        return None;
    }
    let name = span(s, from + 1, CharClass::Alpha);
    if name == from + 1 {
        return None;
    }
    match bracketed_kind_from(s, name) {
        Some(found) => {
            if is_char_at(s, found.2, '>') {
                Some(
                    (
                        ResourceKindParts {
                            resource_type: slice(s, from + 1, name),
                            kind: Some(found.0),
                            specific: found.1,
                        },
                        found.2 + 1,
                    ),
                )
            } else {
                None
            }
        },
        None => {
            if is_char_at(s, name, '>') {
                Some(
                    (
                        ResourceKindParts {
                            resource_type: slice(s, from + 1, name),
                            kind: None,
                            specific: None,
                        },
                        name + 1,
                    ),
                )
            } else {
                None
            }
        },
    }
}

/// What was read at the head of `input` up to `end`, and what is left.
fn read<'a>(input: &'a str, end: Option<usize>, context: &str) -> (r: Result<
    (&'a str, String),
    ParseError,
>)
    requires
        end matches Some(e) ==> e <= input@.len(),
    ensures
        match end {
            Some(e) => r matches Ok(got) && got.0@ == input@.skip(e as int) && got.1@
                == input@.subrange(0, e as int),
            None => r matches Err(error) && error@.context == context@,
        },
{
    match end {
        Some(end) => Ok((rest(input, end), slice(input, 0, end))),
        None => Err(ParseError::new(context)),
    }
}

/// Reads one or more letters, digits or hyphens at the head of `i`.
pub fn alphanumerichyphen1(i: &str) -> (r: Result<(&str, String), ParseError>)
    ensures
        match read_result(i@, run_end(i@, 0, CharClass::AlphaNumericHyphen)) {
            Some(found) => r matches Ok(got) && got.0@ == found.0 && got.1@ == found.1,
            None => r matches Err(error) && error@.context == "alphanumerichyphen1"@,
        },
{
    read(i, run_to(i, 0, CharClass::AlphaNumericHyphen), "alphanumerichyphen1")
}

/// Reads one or more characters of an address at the head of `i`: letters,
/// digits, hyphens, dots, slashes and colons.
pub fn address(i: &str) -> (r: Result<(&str, String), ParseError>)
    ensures
        match read_result(i@, run_end(i@, 0, CharClass::Address)) {
            Some(found) => r matches Ok(got) && got.0@ == found.0 && got.1@ == found.1,
            None => r matches Err(error) && error@.context == "address"@,
        },
{
    read(i, run_to(i, 0, CharClass::Address), "address")
}

/// Reads one or more small letters, digits or hyphens at the head of `i`.
pub fn loweralphanumerichyphen1(i: &str) -> (r: Result<(&str, String), ParseError>)
    ensures
        match read_result(i@, run_end(i@, 0, CharClass::LowerAlphaNumericHyphen)) {
            Some(found) => r matches Ok(got) && got.0@ == found.0 && got.1@ == found.1,
            None => r matches Err(error) && error@.context == "loweralphanumerichyphen1"@,
        },
{
    read(i, run_to(i, 0, CharClass::LowerAlphaNumericHyphen), "loweralphanumerichyphen1")
}

/// Reads a host at the head of `input`: see [`host_end`].
pub fn host(input: &str) -> (r: Result<(&str, Domain), ParseError>)
    ensures
        match read_result(input@, host_end(input@, 0)) {
            Some(found) => r matches Ok(got) && got.0@ == found.0 && got.1@ == found.1,
            None => r matches Err(error) && error@.context == "host"@,
        },
{
    read(input, host_to(input, 0), "host")
}

/// Reads a domain at the head of `input`: see [`domain_end`].
pub fn domain(input: &str) -> (r: Result<(&str, Domain), ParseError>)
    ensures
        match read_result(input@, domain_end(input@, 0)) {
            Some(found) => r matches Ok(got) && got.0@ == found.0 && got.1@ == found.1,
            None => r matches Err(error) && error@.context == "domain"@,
        },
{
    read(input, domain_to(input, 0), "domain")
}

/// Reads the digit `0` at the head of `input`.
pub fn zero(input: &str) -> (r: Result<(&str, String), ParseError>)
    ensures
        match read_result(
            input@,
            if char_at(input@, 0, '0') {
                Some(1int)
            } else {
                None
            },
        ) {
            Some(found) => r matches Ok(got) && got.0@ == found.0 && got.1@ == found.1,
            None => r matches Err(error) && error@.context == "zero"@,
        },
{
    let end = if is_char_at(input, 0, '0') {
        Some(1)
    } else {
        None
    };
    read(input, end, "zero")
}

/// Reads the three numbers of a version at the head of `input`: see
/// [`version_numbers_end`].
pub fn version_major_minor_patch(input: &str) -> (r: Result<(&str, String), ParseError>)
    ensures
        match read_result(input@, version_numbers_end(input@, 0)) {
            Some(found) => r matches Ok(got) && got.0@ == found.0 && got.1@ == found.1,
            None => r matches Err(error) && error@.context == "version_major_minor_patch"@,
        },
{
    read(input, version_numbers_to(input, 0), "version_major_minor_patch")
}

/// Reads a version at the head of `input`: see [`version_end`].
pub fn version(input: &str) -> (r: Result<(&str, String), ParseError>)
    ensures
        match read_result(input@, version_end(input@, 0)) {
            Some(found) => r matches Ok(got) && got.0@ == found.0 && got.1@ == found.1,
            None => r matches Err(error) && error@.context == "version"@,
        },
{
    read(input, version_to(input, 0), "version")
}

/// Reads a specific at the head of `input`: see [`specific_at`].
pub fn specific(input: &str) -> (r: Result<(&str, Specific), ParseError>)
    ensures
        match specific_at(input@, 0) {
            Some(found) => r matches Ok(got) && got.0@ == input@.skip(found.1) && got.1@ == found.0,
            None => r matches Err(error) && error@.context == "specific"@,
        },
{
    match specific_from(input, 0) {
        Some(found) => Ok((rest(input, found.1), found.0)),
        None => Err(ParseError::new("specific")),
    }
}

/// Reads the kind of a resource at the head of `input`: see [`kind_at`].
pub fn parse_kind(input: &str) -> (r: Result<(&str, ResourceKindParts), ParseError>)
    ensures
        match kind_at(input@, 0) {
            Some(found) => r matches Ok(got) && got.0@ == input@.skip(found.1) && got.1@ == found.0,
            None => r matches Err(error) && error@.context == "kind"@,
        },
{
    match kind_from(input, 0) {
        Some(found) => Ok((rest(input, found.1), found.0)),
        None => Err(ParseError::new("kind")),
    }
}

/// Reads an address with the kind of its resource at the head of `input`:
/// everything up to the first `<`, then the kind.
pub fn parse_address(input: &str) -> (r: Result<(&str, (String, ResourceKindParts)), ParseError>)
    ensures
        match kind_at(input@, span_end(input@, 0, CharClass::NotAngleOpen)) {
            Some(found) => r matches Ok(got) && got.0@ == input@.skip(found.1) && got.1.0@
                == input@.subrange(0, span_end(input@, 0, CharClass::NotAngleOpen)) && got.1.1@
                == found.0,
            None => r matches Err(error) && error@.context == "address"@,
        },
{
    let path = span(input, 0, CharClass::NotAngleOpen);
    match kind_from(input, path) {
        Some(found) => Ok((rest(input, found.1), (slice(input, 0, path), found.0))),
        None => Err(ParseError::new("address")),
    }
}

impl Specific {
    /// The text of a specific: its four parts with colons between them.
    pub open spec fn text(specific: SpecificView) -> Seq<char> {
        specific.vendor + ":"@ + specific.product + ":"@ + specific.variant + ":"@
            + specific.version
    }

    /// The four parts with colons between them.
    pub fn to_string(&self) -> (r: String)
        ensures
            r@ == Self::text(self@),
    {
        let mut s = self.vendor.clone();
        s.append(":");
        s.append(self.product.as_str());
        s.append(":");
        s.append(self.variant.as_str());
        s.append(":");
        s.append(self.version.as_str());
        s
    }
}

impl ResourceKindParts {
    /// Reads the kind of a resource from the whole of `s`.
    pub fn from_str(s: &str) -> (r: Result<ResourceKindParts, Error>)
        ensures
            match kind_at(s@, 0) {
                Some(found) => if found.1 == s@.len() {
                    r matches Ok(parts) && parts@ == found.0
                } else {
                    r is Err
                },
                None => r is Err,
            },
    {
        match parse_kind(s) {
            Ok(found) => {
                if char_len(found.0) > 0 {
                    let mut message = String::from_str(
                        "ResourceKindParts ERROR: could not parse extra: '",
                    );
                    message.append(found.0);
                    message.append("' in string '");
                    message.append(s);
                    message.append("'");
                    Err(Error { error: message })
                } else {
                    Ok(found.1)
                }
            },
            Err(error) => Err(Error { error: error.context }),
        }
    }
}

impl ResourceKind {
    /// The name of the type of the resource.
    pub open spec fn name_of_type(kind: ResourceKindView) -> Seq<char> {
        match kind {
            ResourceKindView::Space => "Space"@,
            ResourceKindView::SubSpace => "SubSpace"@,
            ResourceKindView::App => "App"@,
            ResourceKindView::Actor => "Actor"@,
            ResourceKindView::User => "User"@,
            ResourceKindView::File => "File"@,
            ResourceKindView::FileSystem => "FileSystem"@,
            ResourceKindView::Artifact => "Artifact"@,
            ResourceKindView::Database(_) => "Database"@,
        }
    }

    /// The name of the type of the resource.
    pub fn resource_type(&self) -> (r: String)
        ensures
            r@ == Self::name_of_type(self@),
    {
        match self {
            ResourceKind::Space => String::from_str("Space"),
            ResourceKind::SubSpace => String::from_str("SubSpace"),
            ResourceKind::App => String::from_str("App"),
            ResourceKind::Actor => String::from_str("Actor"),
            ResourceKind::User => String::from_str("User"),
            ResourceKind::File => String::from_str("File"),
            ResourceKind::FileSystem => String::from_str("FileSystem"),
            ResourceKind::Artifact => String::from_str("Artifact"),
            ResourceKind::Database(_) => String::from_str("Database"),
        }
    }

    /// The kind that the parts stand for, if they stand for one. A database
    /// is `Native`, or `Relational` with a specific; every other type stands
    /// alone, without kind and without specific.
    pub open spec fn of_parts(parts: ResourceKindPartsView) -> Option<ResourceKindView> {
        if parts.resource_type == "Database"@ {
            match (parts.kind, parts.specific) {
                (Some(kind), Some(specific)) => if kind == "Relational"@ {
                    Some(ResourceKindView::Database(DatabaseKindView::Relational(specific)))
                } else {
                    None
                },
                (Some(kind), None) => if kind == "Native"@ {
                    Some(ResourceKindView::Database(DatabaseKindView::Native))
                } else {
                    None
                },
                _ => None,
            }
        } else if parts.kind is Some || parts.specific is Some {
            None
        } else if parts.resource_type == "Space"@ {
            Some(ResourceKindView::Space)
        } else if parts.resource_type == "SubSpace"@ {
            Some(ResourceKindView::SubSpace)
        } else if parts.resource_type == "App"@ {
            Some(ResourceKindView::App)
        } else if parts.resource_type == "Actor"@ {
            Some(ResourceKindView::Actor)
        } else if parts.resource_type == "User"@ {
            Some(ResourceKindView::User)
        } else if parts.resource_type == "File"@ {
            Some(ResourceKindView::File)
        } else if parts.resource_type == "FileSystem"@ {
            Some(ResourceKindView::FileSystem)
        } else if parts.resource_type == "Artifact"@ {
            Some(ResourceKindView::Artifact)
        } else {
            None
        }
    }

    /// The kind that the parts stand for: see [`ResourceKind::of_parts`].
    pub fn try_from(parts: ResourceKindParts) -> (r: Result<ResourceKind, Error>)
        ensures
            match Self::of_parts(parts@) {
                Some(kind) => r matches Ok(found) && found@ == kind,
                None => r matches Err(error) && error@.error == "kind not recognized"@,
            },
    {
        let name = parts.resource_type.as_str();
        if same_text(name, "Database") {
            return match (parts.kind, parts.specific) {
                (Some(kind), Some(specific)) => {
                    if same_text(kind.as_str(), "Relational") {
                        Ok(ResourceKind::Database(DatabaseKind::Relational(specific)))
                    } else {
                        Err(Error::new("kind not recognized"))
                    }
                },
                (Some(kind), None) => {
                    if same_text(kind.as_str(), "Native") {
                        Ok(ResourceKind::Database(DatabaseKind::Native))
                    } else {
                        Err(Error::new("kind not recognized"))
                    }
                },
                _ => Err(Error::new("kind not recognized")),
            };
        }
        if parts.kind.is_some() || parts.specific.is_some() {
            return Err(Error::new("kind not recognized"));
        }
        if same_text(name, "Space") {
            Ok(ResourceKind::Space)
        } else if same_text(name, "SubSpace") {
            Ok(ResourceKind::SubSpace)
        } else if same_text(name, "App") {
            Ok(ResourceKind::App)
        } else if same_text(name, "Actor") {
            Ok(ResourceKind::Actor)
        } else if same_text(name, "User") {
            Ok(ResourceKind::User)
        } else if same_text(name, "File") {
            Ok(ResourceKind::File)
        } else if same_text(name, "FileSystem") {
            Ok(ResourceKind::FileSystem)
        } else if same_text(name, "Artifact") {
            Ok(ResourceKind::Artifact)
        } else {
            Err(Error::new("kind not recognized"))
        }
    }
}

/// The address that `s` holds, if it is one: a path of one or more
/// characters of an address, then `::<`, the name of a type in letters, and
/// `>` at the end.
pub open spec fn address_of(s: Seq<char>) -> Option<ResourceAddressView> {
    let open = span_end(s, 0, CharClass::NotAngleOpen);
    let name = span_end(s, open + 1, CharClass::Alpha);
    if open >= 3 && span_end(s, 0, CharClass::Address) == open && tag_at(s, open - 2, "::"@)
        && char_at(s, open, '<') && name > open + 1 && char_at(s, name, '>') && name + 1
        == s.len() {
        Some(
            ResourceAddressView {
                path: s.subrange(0, open - 2),
                resource_type: s.subrange(open + 1, name),
            },
        )
    } else {
        None
    }
}

impl ResourceAddress {
    /// Reads an address from the whole of `s`: see [`address_of`].
    pub fn from_str(s: &str) -> (r: Result<ResourceAddress, Error>)
        ensures
            match address_of(s@) {
                Some(address) => r matches Ok(found) && found@ == address,
                None => r matches Err(error) && error@.error == "not a resource address"@,
            },
    {
        let open = span(s, 0, CharClass::NotAngleOpen);
        if open < 3 || span(s, 0, CharClass::Address) != open || !has_tag_at(s, open - 2, "::")
            || !is_char_at(s, open, '<') {
            return Err(Error::new("not a resource address"));
        }
        let name = span(s, open + 1, CharClass::Alpha);
        if name > open + 1 && is_char_at(s, name, '>') && name + 1 == char_len(s) {
            Ok(
                ResourceAddress {
                    path: slice(s, 0, open - 2),
                    resource_type: slice(s, open + 1, name),
                },
            )
        } else {
            Err(Error::new("not a resource address"))
        }
    }

    /// The text of an address: the path, `::<`, the type and `>`.
    pub open spec fn text(address: ResourceAddressView) -> Seq<char> {
        address.path + "::<"@ + address.resource_type + ">"@
    }

    /// The path, `::<`, the type and `>`.
    pub fn to_string(&self) -> (r: String)
        ensures
            r@ == Self::text(self@),
    {
        let mut s = self.path.clone();
        s.append("::<");
        s.append(self.resource_type.as_str());
        s.append(">");
        s
    }
}

/// The address with the kind of its resource that `s` holds, if it holds
/// one: the path up to the first `<`, then the kind, to the end of the text.
/// The address gets the type that the kind names.
pub open spec fn address_kind_of(s: Seq<char>) -> Option<ResourceAddressKindView> {
    let path = span_end(s, 0, CharClass::NotAngleOpen);
    match kind_at(s, path) {
        Some(parts) => if parts.1 == s.len() {
            match ResourceKind::of_parts(parts.0) {
                Some(kind) => match address_of(
                    s.subrange(0, path) + "::<"@ + ResourceKind::name_of_type(kind) + ">"@,
                ) {
                    Some(address) => Some(ResourceAddressKindView { address, kind }),
                    None => None,
                },
                None => None,
            }
        } else {
            None
        },
        None => None,
    }
}

impl ResourceAddressKind {
    /// Reads an address with the kind of its resource from the whole of
    /// `s`: see [`address_kind_of`].
    pub fn from_str(s: &str) -> (r: Result<ResourceAddressKind, Error>)
        ensures
            match address_kind_of(s@) {
                Some(found) => r matches Ok(got) && got@ == found,
                None => r is Err,
            },
    {
        match parse_address(s) {
            Ok(found) => {
                if char_len(found.0) > 0 {
                    return Err(Error::new("Parse Error for ResourceAddressKind: leftover"));
                }
                let path = found.1.0;
                let kind = match ResourceKind::try_from(found.1.1) {
                    Ok(kind) => kind,
                    Err(error) => {
                        return Err(error);
                    },
                };
                let mut text = path;
                text.append("::<");
                let name = kind.resource_type();
                text.append(name.as_str());
                text.append(">");
                match ResourceAddress::from_str(text.as_str()) {
                    Ok(address) => Ok(ResourceAddressKind { address, kind }),
                    Err(error) => Err(error),
                }
            },
            Err(error) => Err(Error { error: error.context }),
        }
    }
}

} // verus!
