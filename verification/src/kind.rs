//! Kinds of particle, their variants and specifics, and the selectors that
//! match them.

use vstd::prelude::*;
use vstd::std_specs::cmp::PartialEqSpec;
use crate::lex::{char_at, is_char_at, CharClass};
use crate::parse::{
    camel_case, domain, semver_matches, skewer_case, version, version_meets, version_req,
    version_req_token_end, version_token_end, word_end, CamelCase, Domain, MsgErr, SkewerCase,
    SpaceErr, SpaceErrView, Text, Version, VersionReq,
};
use crate::text::same_text;

verus! {

/// A part with a sub type and a type of its own.
#[derive(Debug, Clone, Eq, PartialEq, Hash)]
pub struct SubTypeDef<Part, SubType> {
    pub part: Part,
    pub sub: SubType,
    pub r_type: SubType,
}

impl<Part, SubType> SubTypeDef<Part, SubType> {
    /// The same with another sub type.
    pub fn with_sub(self, sub: SubType) -> (r: Self)
        ensures
            r == (SubTypeDef { part: self.part, sub, r_type: self.r_type }),
    {
        Self { part: self.part, r_type: self.r_type, sub }
    }

    /// The same with another type.
    pub fn with_type(self, r_type: SubType) -> (r: Self)
        ensures
            r == (SubTypeDef { part: self.part, sub: self.sub, r_type }),
    {
        Self { part: self.part, sub: self.sub, r_type }
    }
}

/// A parent with a child.
#[derive(Debug, Clone, Eq, PartialEq, Hash)]
pub struct ParentChildDef<Parent, Child> {
    pub parent: Parent,
    pub child: Child,
}

/// What can be asked whether it matches a value.
pub trait IsMatch<X> where X: Eq + PartialEq {
    /// Whether what `is_match` answers is known: it is where the values that
    /// have to be compared are compared as their type says in contracts.
    spec fn decided() -> bool;

    /// Whether `other` is matched.
    spec fn matches(&self, other: &X) -> bool;

    /// Whether `other` is matched.
    fn is_match(&self, other: &X) -> (r: bool)
        ensures
            Self::decided() ==> r == self.matches(other),
    ;
}

impl<Part, SubType, IsMatchPart, IsMatchSubType> IsMatch<
    SubTypeDef<Part, SubType>,
> for SubTypeDef<IsMatchPart, IsMatchSubType> where
    IsMatchPart: IsMatch<Part>,
    IsMatchSubType: IsMatch<SubType>,
    Part: Eq + PartialEq,
    SubType: Eq + PartialEq,
 {
    open spec fn decided() -> bool {
        IsMatchPart::decided() && IsMatchSubType::decided()
    }

    open spec fn matches(&self, other: &SubTypeDef<Part, SubType>) -> bool {
        self.part.matches(&other.part) && self.sub.matches(&other.sub) && self.r_type.matches(
            &other.r_type,
        )
    }

    fn is_match(&self, other: &SubTypeDef<Part, SubType>) -> (r: bool) {
        self.part.is_match(&other.part) && self.sub.is_match(&other.sub) && self.r_type.is_match(
            &other.r_type,
        )
    }
}

impl<Parent, Child, IsMatchParent, IsMatchChild> IsMatch<
    ParentChildDef<Parent, Child>,
> for ParentChildDef<IsMatchParent, IsMatchChild> where
    IsMatchParent: IsMatch<Parent>,
    IsMatchChild: IsMatch<Child>,
    Parent: Eq + PartialEq,
    Child: Eq + PartialEq,
 {
    open spec fn decided() -> bool {
        IsMatchParent::decided() && IsMatchChild::decided()
    }

    open spec fn matches(&self, other: &ParentChildDef<Parent, Child>) -> bool {
        self.parent.matches(&other.parent) && self.child.matches(&other.child)
    }

    fn is_match(&self, other: &ParentChildDef<Parent, Child>) -> (r: bool) {
        self.parent.is_match(&other.parent) && self.child.is_match(&other.child)
    }
}

/// The kinds of database.
#[derive(Debug, Clone, Copy, Eq, PartialEq, Hash, Structural)]
pub enum Db {
    Rel,
}

impl Db {
    /// The kind of database that `s` names.
    pub fn from_str(s: &str) -> (r: Result<Self, SpaceErr>)
        ensures
            match r {
                Ok(db) => s@ == "Rel"@ && db == Db::Rel,
                Err(error) => s@ != "Rel"@ && error@ == SpaceErrView::ParseErrs("Db"@),
            },
    {
        if same_text(s, "Rel") {
            Ok(Db::Rel)
        } else {
            Err(SpaceErr::ParseErrs(String::from_str("Db")))
        }
    }

    /// The name of the kind of database.
    pub fn to_string(&self) -> (r: String)
        ensures
            r@ == "Rel"@,
    {
        String::from_str("Rel")
    }
}

/// A variant of a kind.
#[derive(Debug, Clone, Copy, Eq, PartialEq, Hash, Structural)]
pub enum Variant {
    Artifact,
    Db(Db),
}

/// The kinds of particle.
#[derive(Debug, Clone, Copy, Eq, PartialEq, Hash, Structural)]
pub enum Kind {
    Root,
    Space,
    Auth,
    Base,
    Mechtron,
    FileSys,
    Db,
    Artifact,
    Control,
    Portal,
    Star,
    Driver,
    Global,
}

impl Kind {
    /// The name of a kind.
    pub open spec fn name(self) -> Seq<char> {
        match self {
            Kind::Root => "Root"@,
            Kind::Space => "Space"@,
            Kind::Auth => "Auth"@,
            Kind::Base => "Base"@,
            Kind::Mechtron => "Mechtron"@,
            Kind::FileSys => "FileSys"@,
            Kind::Db => "Db"@,
            Kind::Artifact => "Artifact"@,
            Kind::Control => "Control"@,
            Kind::Portal => "Portal"@,
            Kind::Star => "Star"@,
            Kind::Driver => "Driver"@,
            Kind::Global => "Global"@,
        }
    }

    /// The name of the kind.
    pub fn to_string(&self) -> (r: String)
        ensures
            r@ == self.name(),
    {
        match self {
            Kind::Root => String::from_str("Root"),
            Kind::Space => String::from_str("Space"),
            Kind::Auth => String::from_str("Auth"),
            Kind::Base => String::from_str("Base"),
            Kind::Mechtron => String::from_str("Mechtron"),
            Kind::FileSys => String::from_str("FileSys"),
            Kind::Db => String::from_str("Db"),
            Kind::Artifact => String::from_str("Artifact"),
            Kind::Control => String::from_str("Control"),
            Kind::Portal => String::from_str("Portal"),
            Kind::Star => String::from_str("Star"),
            Kind::Driver => String::from_str("Driver"),
            Kind::Global => String::from_str("Global"),
        }
    }

    /// The kind without sub type and type.
    pub fn to_sub_types(self) -> (r: KindSubTypes)
        ensures
            r.part == self,
            r.sub.is_none(),
            r.r_type.is_none(),
    {
        KindSubTypes { part: self, sub: None, r_type: None }
    }

    /// The kind with the given variant.
    pub fn with_variant(self, variant: Option<VariantFull>) -> (r: KindFull)
        ensures
            r.parent.part == self,
            r.parent.sub.is_none(),
            r.parent.r_type.is_none(),
            r.child == variant,
    {
        KindFull { parent: self.to_sub_types(), child: variant }
    }
}

impl Default for Kind {
    fn default() -> (r: Self)
        ensures
            r == Kind::Root,
    {
        Self::Root
    }
}

impl Variant {
    /// The name of a variant.
    pub open spec fn name(self) -> Seq<char> {
        match self {
            Variant::Artifact => "Artifact"@,
            Variant::Db(_) => "Db"@,
        }
    }

    /// The name of the variant.
    pub fn to_string(&self) -> (r: String)
        ensures
            r@ == self.name(),
    {
        match self {
            Variant::Artifact => String::from_str("Artifact"),
            Variant::Db(_) => String::from_str("Db"),
        }
    }

    /// The variant of `kind` that `variant` names. Only a database has
    /// variants, and the only one is `Rel`.
    pub fn from(kind: &Kind, variant: &CamelCase) -> (r: Result<Self, MsgErr>)
        ensures
            match r {
                Ok(found) => *kind == Kind::Db && variant@ == "Rel"@ && found == Variant::Db(
                    Db::Rel,
                ),
                Err(error) => !(*kind == Kind::Db && variant@ == "Rel"@) && error@ == (if *kind
                    == Kind::Db {
                    SpaceErrView::ParseErrs("Db"@)
                } else {
                    SpaceErrView::Status {
                        status: 500,
                        message: "kind '"@ + kind.name() + "' does not have a variant '"@
                            + variant@ + "' "@,
                    }
                }),
            },
    {
        match kind {
            Kind::Db => match Db::from_str(variant.as_str()) {
                Ok(db) => Ok(Variant::Db(db)),
                Err(error) => Err(error),
            },
            _ => {
                let mut message = String::from_str("kind '");
                let name = kind.to_string();
                message.append(name.as_str());
                message.append("' does not have a variant '");
                message.append(variant.as_str());
                message.append("' ");
                Err(SpaceErr::Status { status: 500, message })
            },
        }
    }

    /// The variant without sub type and type.
    pub fn to_sub_types(self) -> (r: VariantSubTypes)
        ensures
            r.part == self,
            r.sub.is_none(),
            r.r_type.is_none(),
    {
        VariantSubTypes { part: self, sub: None, r_type: None }
    }

    /// The variant with the given specific.
    pub fn with_specific(self, specific: Option<SpecificSubTypes>) -> (r: VariantFull)
        ensures
            r.parent.part == self,
            r.parent.sub.is_none(),
            r.parent.r_type.is_none(),
            r.child == specific,
    {
        VariantFull { parent: self.to_sub_types(), child: specific }
    }
}

/// Who provides a product, who sells it, what it is, in which variant and
/// which version.
#[derive(Debug, Clone, Eq, PartialEq, Hash)]
pub struct SpecificDef<Domain, Skewer, Version> {
    pub provider: Domain,
    pub vendor: Domain,
    pub product: Skewer,
    pub variant: Skewer,
    pub version: Version,
}

pub type Specific = SpecificDef<Domain, SkewerCase, Version>;

impl Specific {
    /// The specific with the given parts.
    pub fn new(
        provider: Domain,
        vendor: Domain,
        product: SkewerCase,
        variant: SkewerCase,
        version: Version,
    ) -> (r: Self)
        ensures
            r == (SpecificDef { provider, vendor, product, variant, version }),
    {
        Self { provider, vendor, product, variant, version }
    }

    /// The specific without sub type and type.
    pub fn to_full(self) -> (r: SpecificSubTypes)
        ensures
            r.part == self,
            r.sub.is_none(),
            r.r_type.is_none(),
    {
        SpecificSubTypes { part: self, sub: None, r_type: None }
    }

    /// The specific with a sub type.
    pub fn sub(self, sub: Option<CamelCase>) -> (r: SpecificSubTypes)
        ensures
            r.part == self,
            r.sub == sub,
            r.r_type.is_none(),
    {
        SpecificSubTypes { part: self, sub, r_type: None }
    }

    /// The specific with a sub type and a type.
    pub fn sub_type(self, sub: Option<CamelCase>, r_type: Option<CamelCase>) -> (r:
        SpecificSubTypes)
        ensures
            r == (SubTypeDef { part: self, sub, r_type }),
    {
        SpecificSubTypes { part: self, sub, r_type }
    }
}

pub type VariantSubTypes = MatcherDef<Variant, Option<CamelCase>>;

pub type SpecificSubTypes = MatcherDef<Specific, Option<CamelCase>>;

pub type VariantDef<Variant, Specific, Camel> = ParentMatcherDef<Variant, Specific, Camel>;

pub type VariantFull = VariantDef<Variant, Option<SpecificSubTypes>, Option<CamelCase>>;

pub type ProtoVariant = VariantDef<CamelCase, Option<SpecificSubTypes>, Option<CamelCase>>;

pub type KindDef<Kind, Variant, Camel> = ParentMatcherDef<Kind, Variant, Camel>;

pub type CamelCaseSubTypes = MatcherDef<CamelCase, Option<CamelCase>>;

pub type KindSubTypes = MatcherDef<Kind, Option<CamelCase>>;

pub type KindFull = KindDef<Kind, Option<VariantFull>, Option<CamelCase>>;

pub type ProtoKind = KindDef<CamelCase, Option<ProtoVariant>, Option<CamelCase>>;

pub type MatcherDef<Matcher, SubTypeMatcher> = SubTypeDef<Matcher, SubTypeMatcher>;

pub type ParentMatcherDef<Matcher, Child, SubTypeMatcher> = ParentChildDef<
    SubTypeDef<Matcher, SubTypeMatcher>,
    Child,
>;

/// What a value is held against: nothing matches, everything matches, or
/// what is equal to a given value matches.
#[derive(Debug, Clone, Hash, Eq, PartialEq)]
pub enum Pattern<X> {
    Never,
    Any,
    Matches(X),
}

impl<X> IsMatch<X> for Pattern<X> where X: Eq + PartialEq {
    open spec fn decided() -> bool {
        X::obeys_eq_spec()
    }

    open spec fn matches(&self, other: &X) -> bool {
        match self {
            Pattern::Never => false,
            Pattern::Any => true,
            Pattern::Matches(x) => x.eq_spec(other),
        }
    }

    fn is_match(&self, other: &X) -> (r: bool) {
        match self {
            Pattern::Never => false,
            Pattern::Any => true,
            Pattern::Matches(x) => x.eq(other),
        }
    }
}

impl<X: Text> Text for Pattern<X> {
    open spec fn text(&self) -> Seq<char> {
        match self {
            Pattern::Never => "!"@,
            Pattern::Any => "*"@,
            Pattern::Matches(x) => x.text(),
        }
    }

    fn to_string(&self) -> (r: String) {
        match self {
            Pattern::Never => String::from_str("!"),
            Pattern::Any => String::from_str("*"),
            Pattern::Matches(x) => x.to_string(),
        }
    }
}

/// What an optional value is held against: only the absent value matches,
/// everything matches, or what is present and equal to a given value
/// matches.
#[derive(Debug, Clone, Hash, Eq, PartialEq)]
pub enum OptPattern<X> {
    Absent,
    Any,
    Matches(X),
}

impl<X> IsMatch<Option<X>> for OptPattern<X> where X: Eq + PartialEq {
    open spec fn decided() -> bool {
        X::obeys_eq_spec()
    }

    open spec fn matches(&self, other: &Option<X>) -> bool {
        match self {
            OptPattern::Absent => other.is_none(),
            OptPattern::Any => true,
            OptPattern::Matches(x) => match other {
                None => false,
                Some(o) => x.eq_spec(o),
            },
        }
    }

    fn is_match(&self, other: &Option<X>) -> (r: bool) {
        match self {
            OptPattern::Absent => other.is_none(),
            OptPattern::Any => true,
            OptPattern::Matches(x) => match other {
                None => false,
                Some(o) => x.eq(o),
            },
        }
    }
}

impl<X: Text> Text for OptPattern<X> {
    open spec fn text(&self) -> Seq<char> {
        match self {
            OptPattern::Absent => "!"@,
            OptPattern::Any => "*"@,
            OptPattern::Matches(x) => x.text(),
        }
    }

    fn to_string(&self) -> (r: String) {
        match self {
            OptPattern::Absent => String::from_str("!"),
            OptPattern::Any => String::from_str("*"),
            OptPattern::Matches(x) => x.to_string(),
        }
    }
}

impl IsMatch<Version> for VersionReq {
    open spec fn decided() -> bool {
        true
    }

    open spec fn matches(&self, other: &Version) -> bool {
        semver_matches(self@, other@)
    }

    fn is_match(&self, other: &Version) -> (r: bool) {
        version_meets(self.as_str(), other.as_str())
    }
}

pub type DomainSelector = Pattern<Domain>;

pub type SkewerSelector = Pattern<SkewerCase>;

pub type VersionSelector = Pattern<VersionReq>;

pub type SpecificSelector = SpecificDef<DomainSelector, SkewerSelector, VersionSelector>;

pub type SpecificFullSelector = MatcherDef<SpecificSelector, OptPattern<CamelCase>>;

impl SpecificSelector {
    /// The selector that takes neither sub type nor type.
    pub fn to_full(self) -> (r: SpecificFullSelector)
        ensures
            r == (SubTypeDef {
                part: self,
                sub: OptPattern::<CamelCase>::Absent,
                r_type: OptPattern::<CamelCase>::Absent,
            }),
    {
        SpecificFullSelector { part: self, sub: OptPattern::Absent, r_type: OptPattern::Absent }
    }
}

impl IsMatch<Specific> for SpecificSelector {
    open spec fn decided() -> bool {
        true
    }

    /// Provider, vendor, product and variant are held against the
    /// selector; the version is not.
    open spec fn matches(&self, other: &Specific) -> bool {
        self.provider.matches(&other.provider) && self.vendor.matches(&other.vendor)
            && self.product.matches(&other.product) && self.variant.matches(&other.variant)
    }

    fn is_match(&self, other: &Specific) -> (r: bool) {
        self.provider.is_match(&other.provider) && self.vendor.is_match(&other.vendor)
            && self.product.is_match(&other.product) && self.variant.is_match(&other.variant)
    }
}

pub type VariantFullSelector = ParentMatcherDef<
    Pattern<Variant>,
    OptPattern<SpecificSubTypes>,
    OptPattern<CamelCase>,
>;

pub type KindFullSelector = ParentMatcherDef<
    Pattern<Kind>,
    OptPattern<VariantFullSelector>,
    OptPattern<CamelCase>,
>;

/// Reads a pattern at `from`: `*` matches everything, `!` nothing, and what
/// `f` reads there is matched by what is equal to it.
pub fn pattern<X, F: Fn(&str, usize) -> Option<(X, usize)>>(f: F, s: &str, from: usize) -> (r:
    Option<(Pattern<X>, usize)>)
    requires
        call_requires(f, (s, from)),
    ensures
        match r {
            Some((Pattern::Any, end)) => char_at(s@, from as int, '*') && end == from + 1,
            Some((Pattern::Never, end)) => !char_at(s@, from as int, '*') && char_at(
                s@,
                from as int,
                '!',
            ) && end == from + 1,
            Some((Pattern::Matches(x), end)) => !char_at(s@, from as int, '*') && !char_at(
                s@,
                from as int,
                '!',
            ) && call_ensures(f, (s, from), Some((x, end))),
            None => !char_at(s@, from as int, '*') && !char_at(s@, from as int, '!')
                && call_ensures(f, (s, from), None),
        },
        s@.len() <= usize::MAX,
{
    if is_char_at(s, from, '*') {
        Some((Pattern::Any, from + 1))
    } else if is_char_at(s, from, '!') {
        Some((Pattern::Never, from + 1))
    } else {
        match f(s, from) {
            Some((x, end)) => Some((Pattern::Matches(x), end)),
            None => None,
        }
    }
}

/// Reads a pattern for an optional value at `from`: `*` matches everything,
/// `!` only the absent value, and what `f` reads there is matched by what is
/// present and equal to it.
pub fn opt_pattern<X, F: Fn(&str, usize) -> Option<(X, usize)>>(f: F, s: &str, from: usize) -> (r:
    Option<(OptPattern<X>, usize)>)
    requires
        call_requires(f, (s, from)),
    ensures
        match r {
            Some((OptPattern::Any, end)) => char_at(s@, from as int, '*') && end == from + 1,
            Some((OptPattern::Absent, end)) => !char_at(s@, from as int, '*') && char_at(
                s@,
                from as int,
                '!',
            ) && end == from + 1,
            Some((OptPattern::Matches(x), end)) => !char_at(s@, from as int, '*') && !char_at(
                s@,
                from as int,
                '!',
            ) && call_ensures(f, (s, from), Some((x, end))),
            None => !char_at(s@, from as int, '*') && !char_at(s@, from as int, '!')
                && call_ensures(f, (s, from), None),
        },
        s@.len() <= usize::MAX,
{
    if is_char_at(s, from, '*') {
        Some((OptPattern::Any, from + 1))
    } else if is_char_at(s, from, '!') {
        Some((OptPattern::Absent, from + 1))
    } else {
        match f(s, from) {
            Some((x, end)) => Some((OptPattern::Matches(x), end)),
            None => None,
        }
    }
}

/// Reads at `from` what `prec` reads and then a pattern for an optional
/// value. Where either cannot be read, nothing is taken from the text, and
/// the pattern is the one that only the absent value matches.
pub fn preceded_opt_pattern<X, P: Fn(&str, usize) -> Option<usize>, F: Fn(&str, usize) -> Option<
    (X, usize),
>>(prec: P, f: F, s: &str, from: usize) -> (r: (OptPattern<X>, usize))
    requires
        call_requires(prec, (s, from)),
        forall|at: usize| call_requires(f, (s, at)),
    ensures
        (call_ensures(prec, (s, from), None) && r.0 is Absent && r.1 == from) || (exists|
            at: usize,
        | #[trigger]
            call_ensures(prec, (s, from), Some(at)) && (if char_at(s@, at as int, '*') {
                r.0 is Any && r.1 == at + 1
            } else if char_at(s@, at as int, '!') {
                r.0 is Absent && r.1 == at + 1
            } else {
                (r.0 matches OptPattern::Matches(x) && call_ensures(f, (s, at), Some((x, r.1))))
                    || (call_ensures(f, (s, at), None) && r.0 is Absent && r.1 == from)
            })),
{
    match prec(s, from) {
        Some(at) => match opt_pattern(f, s, at) {
            Some(found) => found,
            None => (OptPattern::Absent, from),
        },
        None => (OptPattern::Absent, from),
    }
}

/// The texts of the parts of a specific.
pub ghost struct SpecificText {
    pub provider: Seq<char>,
    pub vendor: Seq<char>,
    pub product: Seq<char>,
    pub variant: Seq<char>,
    pub version: Seq<char>,
}

impl View for Specific {
    type V = SpecificText;

    open spec fn view(&self) -> SpecificText {
        SpecificText {
            provider: self.provider@,
            vendor: self.vendor@,
            product: self.product@,
            variant: self.variant@,
            version: self.version@,
        }
    }
}

/// Where the word ends that stands after the colon at `colon`, if a colon
/// stands there and a word after it.
pub open spec fn word_after_colon(s: Seq<char>, colon: int, first: CharClass, rest: CharClass) -> Option<
    int,
> {
    if char_at(s, colon, ':') {
        word_end(s, colon + 1, first, rest)
    } else {
        None
    }
}

/// The specific that begins at `from`, and where it ends: provider,
/// vendor, product, variant and version, with a colon between them.
pub open spec fn specific_at(s: Seq<char>, from: int) -> Option<(SpecificText, int)> {
    match word_end(s, from, CharClass::Lower, CharClass::LowerAlphaNumericHyphenDot) {
        Some(provider) => match word_after_colon(
            s,
            provider,
            CharClass::Lower,
            CharClass::LowerAlphaNumericHyphenDot,
        ) {
            Some(vendor) => match word_after_colon(
                s,
                vendor,
                CharClass::Lower,
                CharClass::LowerAlphaNumericHyphen,
            ) {
                Some(product) => match word_after_colon(
                    s,
                    product,
                    CharClass::Lower,
                    CharClass::LowerAlphaNumericHyphen,
                ) {
                    Some(variant) => if char_at(s, variant, ':') {
                        match version_token_end(s, variant + 1) {
                            Some(version) => Some(
                                (
                                    SpecificText {
                                        provider: s.subrange(from, provider),
                                        vendor: s.subrange(provider + 1, vendor),
                                        product: s.subrange(vendor + 1, product),
                                        variant: s.subrange(product + 1, variant),
                                        version: s.subrange(variant + 1, version),
                                    },
                                    version,
                                ),
                            ),
                            None => None,
                        }
                    } else {
                        None
                    },
                    None => None,
                },
                None => None,
            },
            None => None,
        },
        None => None,
    }
}

/// Reads a colon at `from`.
pub fn colon(s: &str, from: usize) -> (r: Option<usize>)
    ensures
        match r {
            Some(after) => char_at(s@, from as int, ':') && after == from + 1,
            None => !char_at(s@, from as int, ':'),
        },
        s@.len() <= usize::MAX,
{
    if is_char_at(s, from, ':') {
        Some(from + 1)
    } else {
        None
    }
}

/// Reads a specific at `from`: see [`specific_at`].
pub fn specific(s: &str, from: usize) -> (r: Option<(Specific, usize)>)
    ensures
        match specific_at(s@, from as int) {
            Some(found) => r matches Some(got) && got.0@ == found.0 && got.1 == found.1 && from
                < got.1 <= s@.len(),
            None => r is None,
        },
        s@.len() <= usize::MAX,
{
    let provider = match domain(s, from) {
        Some(found) => found,
        None => {
            return None;
        },
    };
    let vendor = match colon(s, provider.1) {
        Some(at) => match domain(s, at) {
            Some(found) => found,
            None => {
                return None;
            },
        },
        None => {
            return None;
        },
    };
    let product = match colon(s, vendor.1) {
        Some(at) => match skewer_case(s, at) {
            Some(found) => found,
            None => {
                return None;
            },
        },
        None => {
            return None;
        },
    };
    let variant = match colon(s, product.1) {
        Some(at) => match skewer_case(s, at) {
            Some(found) => found,
            None => {
                return None;
            },
        },
        None => {
            return None;
        },
    };
    match colon(s, variant.1) {
        Some(at) => match version(s, at) {
            Some(found) => Some(
                (Specific::new(provider.0, vendor.0, product.0, variant.0, found.0), found.1),
            ),
            None => None,
        },
        None => None,
    }
}

/// The name in camel case after a colon at `from`, and where it ends; where
/// there is none, nothing, and the place itself.
pub open spec fn sub_type_at(s: Seq<char>, from: int) -> (Option<Seq<char>>, int) {
    match word_after_colon(s, from, CharClass::Upper, CharClass::AlphaNumeric) {
        Some(end) => (Some(s.subrange(from + 1, end)), end),
        None => (None, from),
    }
}

/// Reads a name in camel case after a colon at `from`, if there is one;
/// otherwise nothing is taken.
fn sub_type(s: &str, from: usize) -> (r: (Option<CamelCase>, usize))
    requires
        from <= s@.len(),
    ensures
        r.0.deep_view() == sub_type_at(s@, from as int).0,
        r.1 == sub_type_at(s@, from as int).1,
        from <= r.1 <= s@.len(),
{
    match colon(s, from) {
        Some(at) => match camel_case(s, at) {
            Some(found) => (Some(found.0), found.1),
            None => (None, from),
        },
        None => (None, from),
    }
}

/// Reads a specific with its sub type and its type at `from`: the
/// specific, then up to two names in camel case, each after a colon.
pub fn specific_sub_types(s: &str, from: usize) -> (r: Option<(SpecificSubTypes, usize)>)
    ensures
        match specific_at(s@, from as int) {
            Some(found) => r matches Some(got) && got.0.part@ == found.0
                && got.0.sub.deep_view() == sub_type_at(s@, found.1).0
                && got.0.r_type.deep_view() == sub_type_at(s@, sub_type_at(s@, found.1).1).0
                && got.1 == sub_type_at(s@, sub_type_at(s@, found.1).1).1,
            None => r is None,
        },
{
    match specific(s, from) {
        Some(found) => {
            let sub = sub_type(s, found.1);
            let r_type = sub_type(s, sub.1);
            Some((SubTypeDef { part: found.0, sub: sub.0, r_type: r_type.0 }, r_type.1))
        },
        None => None,
    }
}

/// What a pattern says, with the text of what it holds.
pub ghost enum PatternText {
    Never,
    Any,
    Matches(Seq<char>),
}

/// What a pattern says.
pub open spec fn pattern_text<X: View<V = Seq<char>>>(pattern: Pattern<X>) -> PatternText {
    match pattern {
        Pattern::Never => PatternText::Never,
        Pattern::Any => PatternText::Any,
        Pattern::Matches(x) => PatternText::Matches(x@),
    }
}

/// What a pattern for an optional value says: `Never` stands for the
/// pattern that only the absent value matches.
pub open spec fn opt_pattern_text<X: View<V = Seq<char>>>(pattern: OptPattern<X>) -> PatternText {
    match pattern {
        OptPattern::Absent => PatternText::Never,
        OptPattern::Any => PatternText::Any,
        OptPattern::Matches(x) => PatternText::Matches(x@),
    }
}

/// The pattern that begins at `from`, and where it ends, where `inner` is
/// the end of what the pattern holds if it is neither `*` nor `!`.
pub open spec fn pattern_at(s: Seq<char>, from: int, inner: Option<int>) -> Option<
    (PatternText, int),
> {
    if char_at(s, from, '*') {
        Some((PatternText::Any, from + 1))
    } else if char_at(s, from, '!') {
        Some((PatternText::Never, from + 1))
    } else {
        match inner {
            Some(end) => Some((PatternText::Matches(s.subrange(from, end)), end)),
            None => None,
        }
    }
}

/// Reads a pattern of domains at `from`.
fn domain_pattern(s: &str, from: usize) -> (r: Option<(Pattern<Domain>, usize)>)
    ensures
        match pattern_at(
            s@,
            from as int,
            word_end(s@, from as int, CharClass::Lower, CharClass::LowerAlphaNumericHyphenDot),
        ) {
            Some(found) => r matches Some(got) && pattern_text(got.0) == found.0 && got.1
                == found.1 && from < got.1 <= s@.len(),
            None => r is None,
        },
        s@.len() <= usize::MAX,
{
    pattern(domain, s, from)
}

/// Reads a pattern of names in skewer case at `from`.
fn skewer_pattern(s: &str, from: usize) -> (r: Option<(Pattern<SkewerCase>, usize)>)
    ensures
        match pattern_at(
            s@,
            from as int,
            word_end(s@, from as int, CharClass::Lower, CharClass::LowerAlphaNumericHyphen),
        ) {
            Some(found) => r matches Some(got) && pattern_text(got.0) == found.0 && got.1
                == found.1 && from < got.1 <= s@.len(),
            None => r is None,
        },
        s@.len() <= usize::MAX,
{
    pattern(skewer_case, s, from)
}

/// Reads a pattern of requirements on versions at `from`.
fn version_req_pattern(s: &str, from: usize) -> (r: Option<(Pattern<VersionReq>, usize)>)
    ensures
        match pattern_at(s@, from as int, version_req_token_end(s@, from as int)) {
            Some(found) => r matches Some(got) && pattern_text(got.0) == found.0 && got.1
                == found.1 && from < got.1 <= s@.len(),
            None => r is None,
        },
        s@.len() <= usize::MAX,
{
    pattern(version_req, s, from)
}

/// What the parts of a selector of specifics say.
pub ghost struct SelectorText {
    pub provider: PatternText,
    pub vendor: PatternText,
    pub product: PatternText,
    pub variant: PatternText,
    pub version: PatternText,
}

impl View for SpecificSelector {
    type V = SelectorText;

    open spec fn view(&self) -> SelectorText {
        SelectorText {
            provider: pattern_text(self.provider),
            vendor: pattern_text(self.vendor),
            product: pattern_text(self.product),
            variant: pattern_text(self.variant),
            version: pattern_text(self.version),
        }
    }
}

/// The pattern of words after the colon at `colon`, if a colon stands
/// there.
pub open spec fn word_pattern_after_colon(
    s: Seq<char>,
    colon: int,
    first: CharClass,
    rest: CharClass,
) -> Option<(PatternText, int)> {
    if char_at(s, colon, ':') {
        pattern_at(s, colon + 1, word_end(s, colon + 1, first, rest))
    } else {
        None
    }
}

/// The selector of specifics that begins at `from`, and where it ends:
/// like a specific, but every part is a pattern, and the version a
/// requirement on versions.
pub open spec fn selector_at(s: Seq<char>, from: int) -> Option<(SelectorText, int)> {
    match pattern_at(
        s,
        from,
        word_end(s, from, CharClass::Lower, CharClass::LowerAlphaNumericHyphenDot),
    ) {
        Some(provider) => match word_pattern_after_colon(
            s,
            provider.1,
            CharClass::Lower,
            CharClass::LowerAlphaNumericHyphenDot,
        ) {
            Some(vendor) => match word_pattern_after_colon(
                s,
                vendor.1,
                CharClass::Lower,
                CharClass::LowerAlphaNumericHyphen,
            ) {
                Some(product) => match word_pattern_after_colon(
                    s,
                    product.1,
                    CharClass::Lower,
                    CharClass::LowerAlphaNumericHyphen,
                ) {
                    Some(variant) => if char_at(s, variant.1, ':') {
                        match pattern_at(
                            s,
                            variant.1 + 1,
                            version_req_token_end(s, variant.1 + 1),
                        ) {
                            Some(version) => Some(
                                (
                                    SelectorText {
                                        provider: provider.0,
                                        vendor: vendor.0,
                                        product: product.0,
                                        variant: variant.0,
                                        version: version.0,
                                    },
                                    version.1,
                                ),
                            ),
                            None => None,
                        }
                    } else {
                        None
                    },
                    None => None,
                },
                None => None,
            },
            None => None,
        },
        None => None,
    }
}

/// Reads a selector of specifics at `from`: see [`selector_at`].
pub fn specific_selector(s: &str, from: usize) -> (r: Option<(SpecificSelector, usize)>)
    ensures
        match selector_at(s@, from as int) {
            Some(found) => r matches Some(got) && got.0@ == found.0 && got.1 == found.1 && from
                < got.1 <= s@.len(),
            None => r is None,
        },
        s@.len() <= usize::MAX,
{
    let provider = match domain_pattern(s, from) {
        Some(found) => found,
        None => {
            return None;
        },
    };
    let vendor = match colon(s, provider.1) {
        Some(at) => match domain_pattern(s, at) {
            Some(found) => found,
            None => {
                return None;
            },
        },
        None => {
            return None;
        },
    };
    let product = match colon(s, vendor.1) {
        Some(at) => match skewer_pattern(s, at) {
            Some(found) => found,
            None => {
                return None;
            },
        },
        None => {
            return None;
        },
    };
    let variant = match colon(s, product.1) {
        Some(at) => match skewer_pattern(s, at) {
            Some(found) => found,
            None => {
                return None;
            },
        },
        None => {
            return None;
        },
    };
    match colon(s, variant.1) {
        Some(at) => match version_req_pattern(s, at) {
            Some(found) => Some(
                (
                    SpecificDef {
                        provider: provider.0,
                        vendor: vendor.0,
                        product: product.0,
                        variant: variant.0,
                        version: found.0,
                    },
                    found.1,
                ),
            ),
            None => None,
        },
        None => None,
    }
}

/// The pattern of names in camel case after a colon at `from`, and where
/// it ends; where there is none, the pattern that only the absent value
/// matches, and the place itself.
pub open spec fn sub_type_pattern_at(s: Seq<char>, from: int) -> (PatternText, int) {
    if char_at(s, from, ':') {
        match pattern_at(
            s,
            from + 1,
            word_end(s, from + 1, CharClass::Upper, CharClass::AlphaNumeric),
        ) {
            Some(found) => found,
            None => (PatternText::Never, from),
        }
    } else {
        (PatternText::Never, from)
    }
}

/// Reads a pattern of names in camel case after a colon at `from`, if
/// there is one; otherwise nothing is taken.
fn sub_type_pattern(s: &str, from: usize) -> (r: (OptPattern<CamelCase>, usize))
    requires
        from <= s@.len(),
    ensures
        opt_pattern_text(r.0) == sub_type_pattern_at(s@, from as int).0,
        r.1 == sub_type_pattern_at(s@, from as int).1,
        from <= r.1 <= s@.len(),
{
    preceded_opt_pattern(colon, camel_case, s, from)
}

/// Reads a selector of specifics with the patterns of its sub type and its
/// type at `from`: the selector, then up to two patterns of names in camel
/// case, each after a colon.
pub fn specific_full_selector(s: &str, from: usize) -> (r: Option<(SpecificFullSelector, usize)>)
    ensures
        match selector_at(s@, from as int) {
            Some(found) => r matches Some(got) && got.0.part@ == found.0 && opt_pattern_text(
                got.0.sub,
            ) == sub_type_pattern_at(s@, found.1).0 && opt_pattern_text(got.0.r_type)
                == sub_type_pattern_at(s@, sub_type_pattern_at(s@, found.1).1).0 && got.1
                == sub_type_pattern_at(s@, sub_type_pattern_at(s@, found.1).1).1,
            None => r is None,
        },
{
    match specific_selector(s, from) {
        Some(found) => {
            let sub = sub_type_pattern(s, found.1);
            let r_type = sub_type_pattern(s, sub.1);
            Some((SubTypeDef { part: found.0, sub: sub.0, r_type: r_type.0 }, r_type.1))
        },
        None => None,
    }
}

} // verus!
