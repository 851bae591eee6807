//! Points: the addresses of particles, made of a route and segments.

use vstd::prelude::*;
use crate::lex::{
    char_at, char_len, has_tag_at, is_char_at, rest, slice, span, span_end, tag_at, CharClass,
};
use crate::parse::{
    is_word, parses_as_version, semver_version, word, word_end, word_to, SpaceErr, SpaceErrView,
    Text, Version,
};
use crate::text::same_text;

verus! {

/// The mathematical value of a [`RouteSeg`].
pub ghost enum RouteSegView {
    This,
    Local,
    Remote,
    Global,
    Domain(Seq<char>),
    Tag(Seq<char>),
    Star(Seq<char>),
    Hyper,
}

/// Where the segments of a point are to be looked up.
#[derive(Debug, PartialEq, Eq, Hash)]
pub enum RouteSeg {
    This,
    Local,
    Remote,
    Global,
    Domain(String),
    Tag(String),
    Star(String),
    Hyper,
}

impl View for RouteSeg {
    type V = RouteSegView;

    open spec fn view(&self) -> RouteSegView {
        match self {
            RouteSeg::This => RouteSegView::This,
            RouteSeg::Local => RouteSegView::Local,
            RouteSeg::Remote => RouteSegView::Remote,
            RouteSeg::Global => RouteSegView::Global,
            RouteSeg::Domain(a) => RouteSegView::Domain(a@),
            RouteSeg::Tag(a) => RouteSegView::Tag(a@),
            RouteSeg::Star(a) => RouteSegView::Star(a@),
            RouteSeg::Hyper => RouteSegView::Hyper,
        }
    }
}

impl DeepView for RouteSeg {
    type V = RouteSegView;

    open spec fn deep_view(&self) -> RouteSegView {
        self@
    }
}

impl Clone for RouteSeg {
    fn clone(&self) -> (r: Self)
        ensures
            r@ == self@,
    {
        match self {
            RouteSeg::This => RouteSeg::This,
            RouteSeg::Local => RouteSeg::Local,
            RouteSeg::Remote => RouteSeg::Remote,
            RouteSeg::Global => RouteSeg::Global,
            RouteSeg::Domain(a) => RouteSeg::Domain(a.clone()),
            RouteSeg::Tag(a) => RouteSeg::Tag(a.clone()),
            RouteSeg::Star(a) => RouteSeg::Star(a.clone()),
            RouteSeg::Hyper => RouteSeg::Hyper,
        }
    }
}

/// Where in a text something was read.
#[derive(Clone, Copy, Debug, PartialEq, Eq, Hash, Structural)]
pub struct Trace {
    pub range_start: usize,
    pub range_end: usize,
}

/// The mathematical value of a [`Variable`].
pub ghost struct VariableView {
    pub name: Seq<char>,
    pub trace: Trace,
}

/// A variable in a point, and where it stands.
#[derive(Debug, PartialEq, Eq, Hash)]
pub struct Variable {
    pub name: String,
    pub trace: Trace,
}

impl View for Variable {
    type V = VariableView;

    open spec fn view(&self) -> VariableView {
        VariableView {
            name: self.name@,
            trace: self.trace,
        }
    }
}

impl DeepView for Variable {
    type V = VariableView;

    open spec fn deep_view(&self) -> VariableView {
        self@
    }
}

impl Clone for Variable {
    fn clone(&self) -> (r: Self)
        ensures
            r@ == self@,
    {
        let r = Variable {
            name: self.name.clone(),
            trace: self.trace,
        };
        r
    }
}

/// The mathematical value of a [`RouteSegVar`].
pub ghost enum RouteSegVarView {
    This,
    Local,
    Remote,
    Global,
    Hyper,
    Domain(Seq<char>),
    Tag(Seq<char>),
    Star(Seq<char>),
    Var(VariableView),
}

/// The route of a point that may hold a variable.
#[derive(Debug, PartialEq, Eq, Hash)]
pub enum RouteSegVar {
    This,
    Local,
    Remote,
    Global,
    Hyper,
    Domain(String),
    Tag(String),
    Star(String),
    Var(Variable),
}

impl View for RouteSegVar {
    type V = RouteSegVarView;

    open spec fn view(&self) -> RouteSegVarView {
        match self {
            RouteSegVar::This => RouteSegVarView::This,
            RouteSegVar::Local => RouteSegVarView::Local,
            RouteSegVar::Remote => RouteSegVarView::Remote,
            RouteSegVar::Global => RouteSegVarView::Global,
            RouteSegVar::Hyper => RouteSegVarView::Hyper,
            RouteSegVar::Domain(a) => RouteSegVarView::Domain(a@),
            RouteSegVar::Tag(a) => RouteSegVarView::Tag(a@),
            RouteSegVar::Star(a) => RouteSegVarView::Star(a@),
            RouteSegVar::Var(a) => RouteSegVarView::Var(a@),
        }
    }
}

impl DeepView for RouteSegVar {
    type V = RouteSegVarView;

    open spec fn deep_view(&self) -> RouteSegVarView {
        self@
    }
}

impl Clone for RouteSegVar {
    fn clone(&self) -> (r: Self)
        ensures
            r@ == self@,
    {
        match self {
            RouteSegVar::This => RouteSegVar::This,
            RouteSegVar::Local => RouteSegVar::Local,
            RouteSegVar::Remote => RouteSegVar::Remote,
            RouteSegVar::Global => RouteSegVar::Global,
            RouteSegVar::Hyper => RouteSegVar::Hyper,
            RouteSegVar::Domain(a) => RouteSegVar::Domain(a.clone()),
            RouteSegVar::Tag(a) => RouteSegVar::Tag(a.clone()),
            RouteSegVar::Star(a) => RouteSegVar::Star(a.clone()),
            RouteSegVar::Var(a) => RouteSegVar::Var(a.clone()),
        }
    }
}

/// The kinds of segment of a point.
#[derive(Clone, Copy, Debug, PartialEq, Eq, Hash, Structural)]
pub enum PointSegKind {
    Root,
    Space,
    Base,
    FilesystemRootDir,
    Dir,
    File,
    Version,
    Pop,
    Working,
    Var,
}

/// The mathematical value of a [`PointSeg`].
pub ghost enum PointSegView {
    Root,
    Space(Seq<char>),
    Base(Seq<char>),
    FilesystemRootDir,
    Dir(Seq<char>),
    File(Seq<char>),
    Version(Seq<char>),
}

/// A segment of a point.
#[derive(Debug, PartialEq, Eq, Hash)]
pub enum PointSeg {
    Root,
    Space(String),
    Base(String),
    FilesystemRootDir,
    Dir(String),
    File(String),
    Version(Version),
}

impl View for PointSeg {
    type V = PointSegView;

    open spec fn view(&self) -> PointSegView {
        match self {
            PointSeg::Root => PointSegView::Root,
            PointSeg::Space(a) => PointSegView::Space(a@),
            PointSeg::Base(a) => PointSegView::Base(a@),
            PointSeg::FilesystemRootDir => PointSegView::FilesystemRootDir,
            PointSeg::Dir(a) => PointSegView::Dir(a@),
            PointSeg::File(a) => PointSegView::File(a@),
            PointSeg::Version(a) => PointSegView::Version(a@),
        }
    }
}

impl DeepView for PointSeg {
    type V = PointSegView;

    open spec fn deep_view(&self) -> PointSegView {
        self@
    }
}

impl Clone for PointSeg {
    fn clone(&self) -> (r: Self)
        ensures
            r@ == self@,
    {
        match self {
            PointSeg::Root => PointSeg::Root,
            PointSeg::Space(a) => PointSeg::Space(a.clone()),
            PointSeg::Base(a) => PointSeg::Base(a.clone()),
            PointSeg::FilesystemRootDir => PointSeg::FilesystemRootDir,
            PointSeg::Dir(a) => PointSeg::Dir(a.clone()),
            PointSeg::File(a) => PointSeg::File(a.clone()),
            PointSeg::Version(a) => PointSeg::Version(a.clone()),
        }
    }
}

/// What stands between two segments.
#[derive(Clone, Copy, Debug, PartialEq, Eq, Hash, Structural)]
pub enum PointSegDelim {
    Empty,
    Mesh,
    File,
}

/// Whether a route is the one of the place where the point itself stands, or
/// the global one.
pub trait RouteSegQuery {
    /// Whether the route is the one of the place where the point stands.
    spec fn spec_is_local(&self) -> bool;

    /// Whether the route is the global one.
    spec fn spec_is_global(&self) -> bool;

    /// Whether the route is the one of the place where the point stands.
    fn is_local(&self) -> (r: bool)
        ensures
            r == self.spec_is_local(),
    ;

    /// Whether the route is the global one.
    fn is_global(&self) -> (r: bool)
        ensures
            r == self.spec_is_global(),
    ;
}

/// What every segment of a point can tell.
pub trait PointSegQuery {
    /// The kind of the segment.
    spec fn spec_kind(&self) -> PointSegKind;

    /// The kind of the segment.
    fn kind(&self) -> (r: PointSegKind)
        ensures
            r == self.spec_kind(),
    ;

    /// Whether the segment is the root of a file system.
    fn is_filesystem_root(&self) -> (r: bool)
        ensures
            r == (self.spec_kind() == PointSegKind::FilesystemRootDir),
    ;
}

impl RouteSegQuery for RouteSeg {
    open spec fn spec_is_local(&self) -> bool {
        self@ is This
    }

    open spec fn spec_is_global(&self) -> bool {
        self@ is Global
    }

    fn is_local(&self) -> (r: bool) {
        match self {
            RouteSeg::This => true,
            _ => false,
        }
    }

    fn is_global(&self) -> (r: bool) {
        match self {
            RouteSeg::Global => true,
            _ => false,
        }
    }
}

impl RouteSegQuery for RouteSegVar {
    open spec fn spec_is_local(&self) -> bool {
        self@ is This
    }

    open spec fn spec_is_global(&self) -> bool {
        self@ is Global
    }

    fn is_local(&self) -> (r: bool) {
        match self {
            RouteSegVar::This => true,
            _ => false,
        }
    }

    fn is_global(&self) -> (r: bool) {
        match self {
            RouteSegVar::Global => true,
            _ => false,
        }
    }
}

impl RouteSeg {
    /// The text of a route.
    pub open spec fn route_text(route: RouteSegView) -> Seq<char> {
        match route {
            RouteSegView::This => "."@,
            RouteSegView::Domain(domain) => domain,
            RouteSegView::Tag(tag) => "["@ + tag + "]"@,
            RouteSegView::Star(star) => "<<"@ + star + ">>"@,
            RouteSegView::Global => "GLOBAL"@,
            RouteSegView::Local => "LOCAL"@,
            RouteSegView::Remote => "REMOTE"@,
            RouteSegView::Hyper => "HYPER"@,
        }
    }

    /// Whether two routes are the same.
    pub fn same(&self, other: &RouteSeg) -> (r: bool)
        ensures
            r == (self@ == other@),
    {
        match (self, other) {
            (RouteSeg::This, RouteSeg::This) => true,
            (RouteSeg::Local, RouteSeg::Local) => true,
            (RouteSeg::Remote, RouteSeg::Remote) => true,
            (RouteSeg::Global, RouteSeg::Global) => true,
            (RouteSeg::Hyper, RouteSeg::Hyper) => true,
            (RouteSeg::Domain(a), RouteSeg::Domain(b)) => same_text(a.as_str(), b.as_str()),
            (RouteSeg::Tag(a), RouteSeg::Tag(b)) => same_text(a.as_str(), b.as_str()),
            (RouteSeg::Star(a), RouteSeg::Star(b)) => same_text(a.as_str(), b.as_str()),
            _ => false,
        }
    }
}

impl Text for RouteSeg {
    open spec fn text(&self) -> Seq<char> {
        RouteSeg::route_text(self@)
    }

    fn to_string(&self) -> (r: String) {
        match self {
            RouteSeg::This => String::from_str("."),
            RouteSeg::Domain(domain) => domain.clone(),
            RouteSeg::Tag(tag) => {
                let mut s = String::from_str("[");
                s.append(tag.as_str());
                s.append("]");
                s
            },
            RouteSeg::Star(star) => {
                let mut s = String::from_str("<<");
                s.append(star.as_str());
                s.append(">>");
                s
            },
            RouteSeg::Global => String::from_str("GLOBAL"),
            RouteSeg::Local => String::from_str("LOCAL"),
            RouteSeg::Remote => String::from_str("REMOTE"),
            RouteSeg::Hyper => String::from_str("HYPER"),
        }
    }
}

impl Text for RouteSegVar {
    open spec fn text(&self) -> Seq<char> {
        match self@ {
            RouteSegVarView::This => "."@,
            RouteSegVarView::Local => "LOCAL"@,
            RouteSegVarView::Remote => "REMOTE"@,
            RouteSegVarView::Global => "GLOBAL"@,
            RouteSegVarView::Domain(domain) => domain,
            RouteSegVarView::Tag(tag) => "["@ + tag + "]"@,
            RouteSegVarView::Star(star) => "<<"@ + star + ">>"@,
            RouteSegVarView::Var(var) => "${"@ + var.name + "}"@,
            RouteSegVarView::Hyper => "HYPER"@,
        }
    }

    fn to_string(&self) -> (r: String) {
        match self {
            RouteSegVar::This => String::from_str("."),
            RouteSegVar::Local => String::from_str("LOCAL"),
            RouteSegVar::Remote => String::from_str("REMOTE"),
            RouteSegVar::Global => String::from_str("GLOBAL"),
            RouteSegVar::Domain(domain) => domain.clone(),
            RouteSegVar::Tag(tag) => {
                let mut s = String::from_str("[");
                s.append(tag.as_str());
                s.append("]");
                s
            },
            RouteSegVar::Star(star) => {
                let mut s = String::from_str("<<");
                s.append(star.as_str());
                s.append(">>");
                s
            },
            RouteSegVar::Var(var) => {
                let mut s = String::from_str("${");
                s.append(var.name.as_str());
                s.append("}");
                s
            },
            RouteSegVar::Hyper => String::from_str("HYPER"),
        }
    }
}

/// The route without variables, or why it is none.
pub open spec fn collapsed_route(route: RouteSegVarView) -> Result<RouteSegView, SpaceErrView> {
    match route {
        RouteSegVarView::This => Ok(RouteSegView::This),
        RouteSegVarView::Local => Ok(RouteSegView::Local),
        RouteSegVarView::Remote => Ok(RouteSegView::Remote),
        RouteSegVarView::Global => Ok(RouteSegView::Global),
        RouteSegVarView::Hyper => Ok(RouteSegView::Hyper),
        RouteSegVarView::Domain(domain) => Ok(RouteSegView::Domain(domain)),
        RouteSegVarView::Tag(tag) => Ok(RouteSegView::Tag(tag)),
        RouteSegVarView::Star(star) => Ok(RouteSegView::Star(star)),
        RouteSegVarView::Var(_) => Err(
            SpaceErrView::ParseErrs("variables not allowed in this context"@),
        ),
    }
}

impl RouteSegVar {
    /// The route without variables, if it holds none.
    pub fn try_into(self) -> (r: Result<RouteSeg, SpaceErr>)
        ensures
            match collapsed_route(self@) {
                Ok(route) => r matches Ok(found) && found@ == route,
                Err(error) => r matches Err(found) && found@ == error,
            },
    {
        match self {
            RouteSegVar::This => Ok(RouteSeg::This),
            RouteSegVar::Local => Ok(RouteSeg::Local),
            RouteSegVar::Global => Ok(RouteSeg::Global),
            RouteSegVar::Domain(domain) => Ok(RouteSeg::Domain(domain)),
            RouteSegVar::Tag(tag) => Ok(RouteSeg::Tag(tag)),
            RouteSegVar::Star(star) => Ok(RouteSeg::Star(star)),
            RouteSegVar::Var(_) => Err(
                SpaceErr::ParseErrs(String::from_str("variables not allowed in this context")),
            ),
            RouteSegVar::Remote => Ok(RouteSeg::Remote),
            RouteSegVar::Hyper => Ok(RouteSeg::Hyper),
        }
    }
}

impl RouteSeg {
    /// The same route as one that may hold a variable.
    pub fn into(self) -> (r: RouteSegVar)
        ensures
            r@ == match self@ {
                RouteSegView::This => RouteSegVarView::This,
                RouteSegView::Local => RouteSegVarView::Local,
                RouteSegView::Remote => RouteSegVarView::Remote,
                RouteSegView::Hyper => RouteSegVarView::Hyper,
                RouteSegView::Global => RouteSegVarView::Global,
                RouteSegView::Domain(domain) => RouteSegVarView::Domain(domain),
                RouteSegView::Tag(tag) => RouteSegVarView::Tag(tag),
                RouteSegView::Star(star) => RouteSegVarView::Star(star),
            },
    {
        match self {
            RouteSeg::This => RouteSegVar::This,
            RouteSeg::Local => RouteSegVar::Local,
            RouteSeg::Remote => RouteSegVar::Remote,
            RouteSeg::Hyper => RouteSegVar::Hyper,
            RouteSeg::Global => RouteSegVar::Global,
            RouteSeg::Domain(domain) => RouteSegVar::Domain(domain),
            RouteSeg::Tag(tag) => RouteSegVar::Tag(tag),
            RouteSeg::Star(star) => RouteSegVar::Star(star),
        }
    }
}

impl PointSegKind {
    /// What stands before a segment of the kind that is not the first of
    /// its point: a colon before a segment of the mesh, nothing before a
    /// segment of a file system.
    pub open spec fn delim(self, post_fileroot: bool) -> Seq<char> {
        match self {
            PointSegKind::Space => ""@,
            PointSegKind::Base => ":"@,
            PointSegKind::Dir => ""@,
            PointSegKind::File => ""@,
            PointSegKind::Version => ":"@,
            PointSegKind::FilesystemRootDir => ":"@,
            PointSegKind::Root => ""@,
            _ => if post_fileroot {
                ""@
            } else {
                ":"@
            },
        }
    }

    /// What stands before a segment of the kind: see
    /// [`PointSegKind::delim`].
    pub fn preceding_delim(&self, post_fileroot: bool) -> (r: &'static str)
        ensures
            r@ == self.delim(post_fileroot),
    {
        match self {
            PointSegKind::Space => "",
            PointSegKind::Base => ":",
            PointSegKind::Dir => "",
            PointSegKind::File => "",
            PointSegKind::Version => ":",
            PointSegKind::FilesystemRootDir => ":",
            PointSegKind::Root => "",
            _ => match post_fileroot {
                true => "",
                false => ":",
            },
        }
    }

    /// Whether a segment of the kind stands for itself.
    pub open spec fn normalized(self) -> bool {
        !(self == PointSegKind::Pop || self == PointSegKind::Working || self == PointSegKind::Var)
    }

    /// Whether a segment of the kind stands for itself, and not for a way
    /// to another segment.
    pub fn is_normalized(&self) -> (r: bool)
        ensures
            r == self.normalized(),
    {
        match self {
            PointSegKind::Pop => false,
            PointSegKind::Working => false,
            PointSegKind::Var => false,
            _ => true,
        }
    }

    /// Whether the kind is that of a version.
    pub fn is_version(&self) -> (r: bool)
        ensures
            r == (*self == PointSegKind::Version),
    {
        match self {
            PointSegKind::Version => true,
            _ => false,
        }
    }

    /// Whether the kind is that of a file.
    pub fn is_file(&self) -> (r: bool)
        ensures
            r == (*self == PointSegKind::File),
    {
        match self {
            PointSegKind::File => true,
            _ => false,
        }
    }

    /// Whether the kind is that of a directory.
    pub fn is_dir(&self) -> (r: bool)
        ensures
            r == (*self == PointSegKind::Dir),
    {
        match self {
            PointSegKind::Dir => true,
            _ => false,
        }
    }

    /// Whether a segment of the kind can stand in a file system.
    pub open spec fn filesystem_seg(self) -> bool {
        !(self == PointSegKind::Root || self == PointSegKind::Space || self == PointSegKind::Base
            || self == PointSegKind::Version)
    }

    /// Whether a segment of the kind can stand in a file system.
    pub fn is_filesystem_seg(&self) -> (r: bool)
        ensures
            r == self.filesystem_seg(),
    {
        match self {
            PointSegKind::Root => false,
            PointSegKind::Space => false,
            PointSegKind::Base => false,
            PointSegKind::FilesystemRootDir => true,
            PointSegKind::Dir => true,
            PointSegKind::File => true,
            PointSegKind::Version => false,
            PointSegKind::Pop => true,
            PointSegKind::Working => true,
            PointSegKind::Var => true,
        }
    }

    /// Whether a segment of the kind can stand in the mesh.
    pub open spec fn mesh_seg(self) -> bool {
        !(self == PointSegKind::FilesystemRootDir || self == PointSegKind::Dir || self
            == PointSegKind::File)
    }

    /// Whether a segment of the kind can stand in the mesh.
    pub fn is_mesh_seg(&self) -> (r: bool)
        ensures
            r == self.mesh_seg(),
    {
        match self {
            PointSegKind::Root => true,
            PointSegKind::Space => true,
            PointSegKind::Base => true,
            PointSegKind::FilesystemRootDir => false,
            PointSegKind::Dir => false,
            PointSegKind::File => false,
            PointSegKind::Version => true,
            PointSegKind::Pop => true,
            PointSegKind::Working => true,
            PointSegKind::Var => true,
        }
    }

    /// The name of a kind.
    pub open spec fn name(self) -> Seq<char> {
        match self {
            PointSegKind::Root => "Root"@,
            PointSegKind::Space => "Space"@,
            PointSegKind::Base => "Base"@,
            PointSegKind::FilesystemRootDir => "FilesystemRootDir"@,
            PointSegKind::Dir => "Dir"@,
            PointSegKind::File => "File"@,
            PointSegKind::Version => "Version"@,
            PointSegKind::Pop => "Pop"@,
            PointSegKind::Working => "Working"@,
            PointSegKind::Var => "Var"@,
        }
    }

    /// The name of the kind.
    pub fn to_string(&self) -> (r: String)
        ensures
            r@ == self.name(),
    {
        match self {
            PointSegKind::Root => String::from_str("Root"),
            PointSegKind::Space => String::from_str("Space"),
            PointSegKind::Base => String::from_str("Base"),
            PointSegKind::FilesystemRootDir => String::from_str("FilesystemRootDir"),
            PointSegKind::Dir => String::from_str("Dir"),
            PointSegKind::File => String::from_str("File"),
            PointSegKind::Version => String::from_str("Version"),
            PointSegKind::Pop => String::from_str("Pop"),
            PointSegKind::Working => String::from_str("Working"),
            PointSegKind::Var => String::from_str("Var"),
        }
    }
}

impl PointSegView {
    /// The kind of a segment.
    pub open spec fn kind(self) -> PointSegKind {
        match self {
            PointSegView::Root => PointSegKind::Root,
            PointSegView::Space(_) => PointSegKind::Space,
            PointSegView::Base(_) => PointSegKind::Base,
            PointSegView::FilesystemRootDir => PointSegKind::FilesystemRootDir,
            PointSegView::Dir(_) => PointSegKind::Dir,
            PointSegView::File(_) => PointSegKind::File,
            PointSegView::Version(_) => PointSegKind::Version,
        }
    }

    /// The text of a segment.
    pub open spec fn text(self) -> Seq<char> {
        match self {
            PointSegView::Space(space) => space,
            PointSegView::Base(base) => base,
            PointSegView::Dir(dir) => dir,
            PointSegView::File(file) => file,
            PointSegView::Version(version) => version,
            PointSegView::FilesystemRootDir => "/"@,
            PointSegView::Root => ""@,
        }
    }
}

impl PointSegQuery for PointSeg {
    open spec fn spec_kind(&self) -> PointSegKind {
        self@.kind()
    }

    fn kind(&self) -> (r: PointSegKind) {
        match self {
            PointSeg::Root => PointSegKind::Root,
            PointSeg::Space(_) => PointSegKind::Space,
            PointSeg::Base(_) => PointSegKind::Base,
            PointSeg::FilesystemRootDir => PointSegKind::FilesystemRootDir,
            PointSeg::Dir(_) => PointSegKind::Dir,
            PointSeg::File(_) => PointSegKind::File,
            PointSeg::Version(_) => PointSegKind::Version,
        }
    }

    fn is_filesystem_root(&self) -> (r: bool) {
        match self {
            PointSeg::FilesystemRootDir => true,
            _ => false,
        }
    }
}

impl Text for PointSeg {
    open spec fn text(&self) -> Seq<char> {
        self@.text()
    }

    fn to_string(&self) -> (r: String) {
        match self {
            PointSeg::Space(space) => space.clone(),
            PointSeg::Base(base) => base.clone(),
            PointSeg::Dir(dir) => dir.clone(),
            PointSeg::File(file) => file.clone(),
            PointSeg::Version(version) => version.to_string(),
            PointSeg::FilesystemRootDir => String::from_str("/"),
            PointSeg::Root => String::from_str(""),
        }
    }
}

impl PointSeg {
    /// Whether the segment is a file.
    pub fn is_file(&self) -> (r: bool)
        ensures
            r == (self@ is File),
    {
        self.kind().is_file()
    }

    /// Whether the segment stands for itself: every segment of this type
    /// does.
    pub fn is_normalized(&self) -> (r: bool)
        ensures
            r,
    {
        self.kind().is_normalized()
    }

    /// Whether the segment is a version.
    pub fn is_version(&self) -> (r: bool)
        ensures
            r == (self@ is Version),
    {
        self.kind().is_version()
    }

    /// Whether the segment can stand in a file system.
    pub fn is_filesystem_seg(&self) -> (r: bool)
        ensures
            r == self@.kind().filesystem_seg(),
    {
        self.kind().is_filesystem_seg()
    }

    /// What stands before the segment where it is not the first of its
    /// point.
    pub fn preceding_delim(&self, post_fileroot: bool) -> (r: &str)
        ensures
            r@ == self@.kind().delim(post_fileroot),
    {
        self.kind().preceding_delim(post_fileroot)
    }

    /// Whether two segments are the same.
    pub fn same(&self, other: &PointSeg) -> (r: bool)
        ensures
            r == (self@ == other@),
    {
        match (self, other) {
            (PointSeg::Root, PointSeg::Root) => true,
            (PointSeg::FilesystemRootDir, PointSeg::FilesystemRootDir) => true,
            (PointSeg::Space(a), PointSeg::Space(b)) => same_text(a.as_str(), b.as_str()),
            (PointSeg::Base(a), PointSeg::Base(b)) => same_text(a.as_str(), b.as_str()),
            (PointSeg::Dir(a), PointSeg::Dir(b)) => same_text(a.as_str(), b.as_str()),
            (PointSeg::File(a), PointSeg::File(b)) => same_text(a.as_str(), b.as_str()),
            (PointSeg::Version(a), PointSeg::Version(b)) => same_text(a.as_str(), b.as_str()),
            _ => false,
        }
    }
}

impl PointSegDelim {
    /// Nothing, a colon, or a slash.
    pub fn to_string(&self) -> (r: String)
        ensures
            r@ == match *self {
                PointSegDelim::Empty => ""@,
                PointSegDelim::Mesh => ":"@,
                PointSegDelim::File => "/"@,
            },
    {
        match self {
            PointSegDelim::Empty => String::from_str(""),
            PointSegDelim::Mesh => String::from_str(":"),
            PointSegDelim::File => String::from_str("/"),
        }
    }
}

/// A segment together with what stands before it.
#[derive(Debug, Clone)]
pub struct PointSegPairDef<Seg> {
    pub delim: PointSegDelim,
    pub seg: Seg,
}

impl<Seg> PointSegPairDef<Seg> {
    /// The pair of `delim` and `seg`.
    pub fn new(delim: PointSegDelim, seg: Seg) -> (r: Self)
        ensures
            r.delim == delim,
            r.seg == seg,
    {
        Self { delim, seg }
    }
}

impl<Seg: Text> PointSegPairDef<Seg> {
    /// What stands before the segment, then the segment.
    pub fn to_string(&self) -> (r: String)
        ensures
            r@ == (match self.delim {
                PointSegDelim::Empty => ""@,
                PointSegDelim::Mesh => ":"@,
                PointSegDelim::File => "/"@,
            }) + self.seg.text(),
    {
        let mut s = self.delim.to_string();
        let seg = self.seg.to_string();
        s.append(seg.as_str());
        s
    }
}

/// The mathematical value of a point.
pub ghost struct PointDefView<Route, Seg> {
    pub route: Route,
    pub segments: Seq<Seg>,
}

/// A route and the segments that are looked up there.
#[derive(Debug, PartialEq, Eq, Hash)]
pub struct PointDef<Route, Seg> {
    pub route: Route,
    pub segments: Vec<Seg>,
}

impl<Route: DeepView, Seg: DeepView> View for PointDef<Route, Seg> {
    type V = PointDefView<Route::V, Seg::V>;

    open spec fn view(&self) -> PointDefView<Route::V, Seg::V> {
        PointDefView { route: self.route.deep_view(), segments: self.segments.deep_view() }
    }
}

impl<Route: DeepView, Seg: DeepView> DeepView for PointDef<Route, Seg> {
    type V = PointDefView<Route::V, Seg::V>;

    open spec fn deep_view(&self) -> PointDefView<Route::V, Seg::V> {
        self@
    }
}

/// An address: a route and segments that are all known.
pub type Point = PointDef<RouteSeg, PointSeg>;

/// The mathematical value of a [`Point`].
pub type PointView = PointDefView<RouteSegView, PointSegView>;

impl Clone for Point {
    fn clone(&self) -> (r: Self)
        ensures
            r@ == self@,
    {
        let r = PointDef { route: self.route.clone(), segments: self.segments.clone() };
        assert(r.segments.deep_view() =~= self.segments.deep_view());
        r
    }
}

impl<Route, Seg> PointDef<Route, Seg> where Route: Clone, Seg: Clone {
    /// The point one segment up. The root has none.
    pub fn parent(&self) -> (r: Option<PointDef<Route, Seg>>)
        ensures
            match r {
                Some(parent) => self.segments.len() > 0 && cloned(self.route, parent.route)
                    && parent.segments.len() == self.segments.len() - 1 && forall|i: int|
                    0 <= i < parent.segments.len() ==> cloned(
                        #[trigger] self.segments[i],
                        parent.segments[i],
                    ),
                None => self.segments.len() == 0,
            },
    {
        if self.segments.is_empty() {
            return None;
        }
        let mut segments = self.segments.clone();
        segments.remove(segments.len() - 1);
        Some(Self { route: self.route.clone(), segments })
    }

    /// The last segment. The root has none.
    pub fn last_segment(&self) -> (r: Option<Seg>)
        ensures
            match r {
                Some(last) => self.segments.len() > 0 && cloned(
                    self.segments[self.segments.len() - 1],
                    last,
                ),
                None => self.segments.len() == 0,
            },
    {
        if self.segments.len() == 0 {
            None
        } else {
            Some(self.segments[self.segments.len() - 1].clone())
        }
    }

    /// Whether the point has no segments.
    pub fn is_root(&self) -> (r: bool)
        ensures
            r == (self.segments.len() == 0),
    {
        self.segments.is_empty()
    }
}

/// Whether one of the first `n` segments is the root of a file system.
pub open spec fn past_file_root<Seg: PointSegQuery>(segments: Seq<Seg>, n: int) -> bool
    decreases n,
{
    if n <= 0 || n > segments.len() {
        false
    } else {
        segments[n - 1].spec_kind() == PointSegKind::FilesystemRootDir || past_file_root(
            segments,
            n - 1,
        )
    }
}

/// The text of the first `n` segments: each segment but the first after
/// what stands before a segment of its kind.
pub open spec fn segments_text<Seg: PointSegQuery + Text>(segments: Seq<Seg>, n: int) -> Seq<char>
    decreases n,
{
    if n <= 0 || n > segments.len() {
        Seq::empty()
    } else if n == 1 {
        segments[0].text()
    } else {
        segments_text(segments, n - 1) + segments[n - 1].spec_kind().delim(
            past_file_root(segments, n),
        ) + segments[n - 1].text()
    }
}

impl<Route, Seg> PointDef<Route, Seg> where Route: Text, Seg: PointSegQuery + Text {
    /// The text of the point without its route: `ROOT` for the root, else
    /// the segments.
    pub open spec fn postfix_text(&self) -> Seq<char> {
        if self.segments.len() == 0 {
            "ROOT"@
        } else {
            segments_text(self.segments@, self.segments.len() as int)
        }
    }

    /// The text of the point, with the route and `::` before it where
    /// `show_route` says so.
    pub open spec fn text_impl(&self, show_route: bool) -> Seq<char> {
        if show_route {
            self.route.text() + "::"@ + self.postfix_text()
        } else {
            self.postfix_text()
        }
    }

    /// The text of the point: see [`PointDef::text_impl`].
    pub fn to_string_impl(&self, show_route: bool) -> (r: String)
        ensures
            r@ == self.text_impl(show_route),
    {
        let mut rtn = String::new();
        if show_route {
            let route = self.route.to_string();
            rtn.append(route.as_str());
            rtn.append("::");
        }
        let ghost head = rtn@;
        assert(head =~= if show_route {
            self.route.text() + "::"@
        } else {
            Seq::<char>::empty()
        });
        if self.segments.is_empty() {
            rtn.append("ROOT");
            assert(rtn@ =~= self.text_impl(show_route));
            return rtn;
        }
        let mut post_fileroot = false;
        let mut i: usize = 0;
        while i < self.segments.len()
            invariant
                i <= self.segments.len(),
                post_fileroot == past_file_root(self.segments@, i as int),
                rtn@ == head + segments_text(self.segments@, i as int),
            decreases self.segments.len() - i,
        {
            if self.segments[i].is_filesystem_root() {
                post_fileroot = true;
            }
            if i > 0 {
                rtn.append(self.segments[i].kind().preceding_delim(post_fileroot));
            }
            let text = self.segments[i].to_string();
            rtn.append(text.as_str());
            proof {
                let n = i + 1;
                if i == 0 {
                    assert(segments_text(self.segments@, 0) =~= Seq::<char>::empty());
                    assert(rtn@ =~= head + segments_text(self.segments@, n as int));
                } else {
                    assert(rtn@ =~= head + segments_text(self.segments@, n as int));
                }
            }
            i += 1;
        }
        assert(rtn@ =~= self.text_impl(show_route));
        rtn
    }

    /// The text of the point without its route.
    pub fn postfix(&self) -> (r: String)
        ensures
            r@ == self.postfix_text(),
    {
        self.to_string_impl(false)
    }
}

impl<Route, Seg> PointDef<Route, Seg> where Route: RouteSegQuery + Text, Seg: PointSegQuery + Text {
    /// The text of the point: the route is shown unless it is the one of
    /// the place where the point itself stands.
    pub open spec fn text(&self) -> Seq<char> {
        self.text_impl(!self.route.spec_is_local())
    }

    /// The text of the point.
    pub fn to_string(&self) -> (r: String)
        ensures
            r@ == self.text(),
    {
        self.to_string_impl(!self.route.is_local())
    }
}

/// Whether one of the first `n` segments is the root of a file system.
pub open spec fn view_past_file_root(segments: Seq<PointSegView>, n: int) -> bool
    decreases n,
{
    if n <= 0 || n > segments.len() {
        false
    } else {
        segments[n - 1] is FilesystemRootDir || view_past_file_root(segments, n - 1)
    }
}

/// The text of the first `n` segments.
pub open spec fn view_segments_text(segments: Seq<PointSegView>, n: int) -> Seq<char>
    decreases n,
{
    if n <= 0 || n > segments.len() {
        Seq::empty()
    } else if n == 1 {
        segments[0].text()
    } else {
        view_segments_text(segments, n - 1) + segments[n - 1].kind().delim(
            view_past_file_root(segments, n),
        ) + segments[n - 1].text()
    }
}

/// The text of a point: the route and `::`, unless the route is the one of
/// the place where the point stands, then `ROOT` or the segments.
pub open spec fn point_text(point: PointView) -> Seq<char> {
    let segments = if point.segments.len() == 0 {
        "ROOT"@
    } else {
        view_segments_text(point.segments, point.segments.len() as int)
    };
    if point.route is This {
        segments
    } else {
        RouteSeg::route_text(point.route) + "::"@ + segments
    }
}

/// The text that is read when `segment` is pushed onto a point: see
/// [`PointDef::pushed_text`].
pub open spec fn pushed_text_of(point: PointView, segment: Seq<char>) -> Option<Seq<char>> {
    if point.segments.len() == 0 {
        Some(segment)
    } else {
        match point.segments.last() {
            PointSegView::Root => Some(segment),
            PointSegView::Space(_) => Some(point_text(point) + ":"@ + segment),
            PointSegView::Base(_) => Some(point_text(point) + ":"@ + segment),
            PointSegView::FilesystemRootDir => Some(point_text(point) + segment),
            PointSegView::Dir(_) => Some(point_text(point) + segment),
            PointSegView::Version(_) => if segment.len() > 0 && segment[0] == ':' {
                Some(point_text(point) + segment)
            } else {
                Some(point_text(point) + ":"@ + segment)
            },
            PointSegView::File(_) => None,
        }
    }
}

/// The text of the segments of a point is the text of their values.
pub proof fn lemma_segments_text(point: &Point, n: int)
    requires
        0 <= n <= point.segments.len(),
    ensures
        segments_text(point.segments@, n) == view_segments_text(point@.segments, n),
        past_file_root(point.segments@, n) == view_past_file_root(point@.segments, n),
    decreases n,
{
    if n > 0 {
        lemma_segments_text(point, n - 1);
        assert(point@.segments[n - 1] == point.segments@[n - 1]@);
        if n > 1 {
            assert(point@.segments[0] == point.segments@[0]@);
        }
    }
}

/// The text of a point is the text of its value.
pub proof fn lemma_point_text(point: &Point)
    ensures
        point.text() == point_text(point@),
        forall|segment: Seq<char>| #[trigger]
            point.pushed_text(segment) == pushed_text_of(point@, segment),
{
    lemma_segments_text(point, point.segments.len() as int);
    assert(point@.segments.len() == point.segments.len());
}

/// Who acts: nobody in particular, the hyper user, or the particle at a
/// point.
#[derive(Debug, PartialEq, Eq, Hash)]
pub enum Agent {
    Anonymous,
    HyperUser,
    Point(Point),
}

/// The route of the text of a point, and where the segments begin. A text
/// without a route that can be read has the route of the place where the
/// point stands, and its segments begin at once.
pub open spec fn route_at(s: Seq<char>) -> (RouteSegView, int) {
    if tag_at(s, 0, "GLOBAL::"@) {
        (RouteSegView::Global, 8)
    } else if tag_at(s, 0, "LOCAL::"@) {
        (RouteSegView::Local, 7)
    } else if tag_at(s, 0, "REMOTE::"@) {
        (RouteSegView::Remote, 8)
    } else if tag_at(s, 0, "HYPER::"@) {
        (RouteSegView::Hyper, 7)
    } else if char_at(s, 0, '[') {
        let end = span_end(s, 1, CharClass::LowerAlphaNumericHyphen);
        if end > 1 && tag_at(s, end, "]::"@) {
            (RouteSegView::Tag(s.subrange(1, end)), end + 3)
        } else {
            (RouteSegView::This, 0)
        }
    } else if tag_at(s, 0, "<<"@) {
        let end = span_end(s, 2, CharClass::AlphaNumericHyphen);
        if end > 2 && tag_at(s, end, ">>::"@) {
            (RouteSegView::Star(s.subrange(2, end)), end + 4)
        } else {
            (RouteSegView::This, 0)
        }
    } else {
        match word_end(s, 0, CharClass::Lower, CharClass::LowerAlphaNumericHyphenDot) {
            Some(end) => if tag_at(s, end, "::"@) {
                (RouteSegView::Domain(s.subrange(0, end)), end + 2)
            } else {
                (RouteSegView::This, 0)
            },
            None => (RouteSegView::This, 0),
        }
    }
}

/// The segment of the mesh that `token` stands for: a version where the
/// semver crate reads it as one, else a base where it is a name in skewer
/// case.
pub open spec fn mesh_segment_of(token: Seq<char>) -> Option<PointSegView> {
    if semver_version(token) {
        Some(PointSegView::Version(token))
    } else if word(token, CharClass::Lower, CharClass::LowerAlphaNumericHyphen) {
        Some(PointSegView::Base(token))
    } else {
        None
    }
}

/// The segments of a file system that the text holds from `from` to its
/// end: directories, each a name with a slash after it, and at most one
/// file, at the end.
pub open spec fn file_segments_at(s: Seq<char>, from: int) -> Option<Seq<PointSegView>>
    decreases s.len() - from,
{
    if from < 0 {
        None
    } else if from >= s.len() {
        Some(Seq::empty())
    } else {
        let end = span_end(s, from, CharClass::FileName);
        if end <= from {
            None
        } else if char_at(s, end, '/') {
            match file_segments_at(s, end + 1) {
                Some(others) => Some(seq![PointSegView::Dir(s.subrange(from, end + 1))] + others),
                None => None,
            }
        } else if end == s.len() {
            Some(seq![PointSegView::File(s.subrange(from, end))])
        } else {
            None
        }
    }
}

/// The segments that the text holds from `from` to its end, after the
/// first segment of the point: each after a colon; `:/` is the root of a
/// file system, and what follows it are the segments of the file system.
pub open spec fn mesh_segments_at(s: Seq<char>, from: int) -> Option<Seq<PointSegView>>
    decreases s.len() - from,
{
    if from < 0 {
        None
    } else if from >= s.len() {
        Some(Seq::empty())
    } else if !char_at(s, from, ':') {
        None
    } else if char_at(s, from + 1, '/') {
        match file_segments_at(s, from + 2) {
            Some(others) => Some(seq![PointSegView::FilesystemRootDir] + others),
            None => None,
        }
    } else {
        let end = span_end(s, from + 1, CharClass::LowerAlphaNumericHyphenDot);
        if end <= from + 1 || end > s.len() {
            None
        } else {
            match (mesh_segment_of(s.subrange(from + 1, end)), mesh_segments_at(s, end)) {
                (Some(segment), Some(others)) => Some(seq![segment] + others),
                _ => None,
            }
        }
    }
}

/// The point that the text stands for, if it stands for one: a route, if
/// one is given, then `ROOT` or the segments. The first segment is the
/// space: a small letter, then small letters, digits, hyphens and dots.
pub open spec fn point_of(s: Seq<char>) -> Option<PointView> {
    let route = route_at(s);
    if s.skip(route.1) == "ROOT"@ {
        Some(PointDefView { route: route.0, segments: Seq::empty() })
    } else {
        match word_end(s, route.1, CharClass::Lower, CharClass::LowerAlphaNumericHyphenDot) {
            Some(end) => match mesh_segments_at(s, end) {
                Some(others) => Some(
                    PointDefView {
                        route: route.0,
                        segments: seq![PointSegView::Space(s.subrange(route.1, end))] + others,
                    },
                ),
                None => None,
            },
            None => None,
        }
    }
}

/// The route of the text of a point, and where the segments begin.
pub(crate) fn read_route(s: &str) -> (r: (RouteSeg, usize))
    ensures
        r.0@ == route_at(s@).0,
        r.1 == route_at(s@).1,
        r.1 <= s@.len(),
        s@.len() <= usize::MAX,
{
    proof {
        reveal_strlit("GLOBAL::");
        reveal_strlit("LOCAL::");
        reveal_strlit("REMOTE::");
        reveal_strlit("HYPER::");
        reveal_strlit("]::");
        reveal_strlit("<<");
        reveal_strlit(">>::");
        reveal_strlit("::");
    }
    if has_tag_at(s, 0, "GLOBAL::") {
        (RouteSeg::Global, 8)
    } else if has_tag_at(s, 0, "LOCAL::") {
        (RouteSeg::Local, 7)
    } else if has_tag_at(s, 0, "REMOTE::") {
        (RouteSeg::Remote, 8)
    } else if has_tag_at(s, 0, "HYPER::") {
        (RouteSeg::Hyper, 7)
    } else if is_char_at(s, 0, '[') {
        let end = span(s, 1, CharClass::LowerAlphaNumericHyphen);
        if end > 1 && has_tag_at(s, end, "]::") {
            (RouteSeg::Tag(slice(s, 1, end)), end + 3)
        } else {
            (RouteSeg::This, 0)
        }
    } else if has_tag_at(s, 0, "<<") {
        let end = span(s, 2, CharClass::AlphaNumericHyphen);
        if end > 2 && has_tag_at(s, end, ">>::") {
            (RouteSeg::Star(slice(s, 2, end)), end + 4)
        } else {
            (RouteSeg::This, 0)
        }
    } else {
        match word_to(s, 0, CharClass::Lower, CharClass::LowerAlphaNumericHyphenDot) {
            Some(end) => {
                if has_tag_at(s, end, "::") {
                    (RouteSeg::Domain(slice(s, 0, end)), end + 2)
                } else {
                    (RouteSeg::This, 0)
                }
            },
            None => (RouteSeg::This, 0),
        }
    }
}

/// The segment of the mesh that `token` stands for.
pub(crate) fn read_mesh_segment(token: String) -> (r: Option<PointSeg>)
    ensures
        r.deep_view() == mesh_segment_of(token@),
{
    if parses_as_version(token.as_str()) {
        Some(PointSeg::Version(Version { version: token }))
    } else if is_word(token.as_str(), CharClass::Lower, CharClass::LowerAlphaNumericHyphen) {
        Some(PointSeg::Base(token))
    } else {
        None
    }
}

/// The segments of a file system that the text holds from `from` on.
pub(crate) fn read_file_segments(s: &str, from: usize) -> (r: Option<Vec<PointSeg>>)
    requires
        from <= s@.len(),
    ensures
        r.deep_view() == file_segments_at(s@, from as int),
    decreases s@.len() - from,
{
    if from >= char_len(s) {
        let none: Vec<PointSeg> = Vec::new();
        assert(none.deep_view() =~= Seq::<PointSegView>::empty());
        return Some(none);
    }
    let end = span(s, from, CharClass::FileName);
    if end == from {
        None
    } else if is_char_at(s, end, '/') {
        match read_file_segments(s, end + 1) {
            Some(mut segments) => {
                let ghost others = segments.deep_view();
                let dir = PointSeg::Dir(slice(s, from, end + 1));
                segments.insert(0, dir);
                assert(segments.deep_view() =~= seq![dir@] + others);
                Some(segments)
            },
            None => None,
        }
    } else if end == char_len(s) {
        let mut segments: Vec<PointSeg> = Vec::new();
        let file = PointSeg::File(slice(s, from, end));
        segments.push(file);
        assert(segments.deep_view() =~= seq![file@]);
        Some(segments)
    } else {
        None
    }
}

/// The segments that the text holds from `from` on, after the first
/// segment of the point.
fn read_mesh_segments(s: &str, from: usize) -> (r: Option<Vec<PointSeg>>)
    requires
        from <= s@.len(),
    ensures
        r.deep_view() == mesh_segments_at(s@, from as int),
    decreases s@.len() - from,
{
    if from >= char_len(s) {
        let none: Vec<PointSeg> = Vec::new();
        assert(none.deep_view() =~= Seq::<PointSegView>::empty());
        return Some(none);
    }
    if !is_char_at(s, from, ':') {
        return None;
    }
    if is_char_at(s, from + 1, '/') {
        return match read_file_segments(s, from + 2) {
            Some(mut segments) => {
                let ghost others = segments.deep_view();
                segments.insert(0, PointSeg::FilesystemRootDir);
                assert(segments.deep_view() =~= seq![PointSegView::FilesystemRootDir] + others);
                Some(segments)
            },
            None => None,
        };
    }
    let end = span(s, from + 1, CharClass::LowerAlphaNumericHyphenDot);
    if end <= from + 1 {
        return None;
    }
    let segment = read_mesh_segment(slice(s, from + 1, end));
    let others = read_mesh_segments(s, end);
    match (segment, others) {
        (Some(segment), Some(mut segments)) => {
            let ghost rest = segments.deep_view();
            let ghost first = segment@;
            segments.insert(0, segment);
            assert(segments.deep_view() =~= seq![first] + rest);
            Some(segments)
        },
        _ => None,
    }
}

/// Reads a point from the whole of `s`: see [`point_of`].
pub fn consume_point(s: &str) -> (r: Result<Point, SpaceErr>)
    ensures
        match point_of(s@) {
            Some(point) => r matches Ok(found) && found@ == point,
            None => r matches Err(error) && error@ == SpaceErrView::ParseErrs("Point"@),
        },
{
    let route = read_route(s);
    if same_text(rest(s, route.1), "ROOT") {
        let segments: Vec<PointSeg> = Vec::new();
        assert(segments.deep_view() =~= Seq::<PointSegView>::empty());
        return Ok(PointDef { route: route.0, segments });
    }
    match word_to(s, route.1, CharClass::Lower, CharClass::LowerAlphaNumericHyphenDot) {
        Some(end) => match read_mesh_segments(s, end) {
            Some(mut segments) => {
                let ghost others = segments.deep_view();
                let space = PointSeg::Space(slice(s, route.1, end));
                segments.insert(0, space);
                assert(segments.deep_view() =~= seq![space@] + others);
                Ok(PointDef { route: route.0, segments })
            },
            None => Err(SpaceErr::ParseErrs(String::from_str("Point"))),
        },
        None => Err(SpaceErr::ParseErrs(String::from_str("Point"))),
    }
}

/// A point of one segment, the space `space`, on `route`.
fn point_in_space(route: RouteSeg, space: &str) -> (r: Point)
    ensures
        r@ == (PointDefView { route: route@, segments: seq![PointSegView::Space(space@)] }),
{
    let mut segments: Vec<PointSeg> = Vec::new();
    segments.push(PointSeg::Space(String::from_str(space)));
    assert(segments.deep_view() =~= seq![PointSegView::Space(space@)]);
    PointDef { route, segments }
}

/// The point of the users of the hyper space.
pub open spec fn hyper_userbase_view() -> PointView {
    PointDefView {
        route: RouteSegView::This,
        segments: seq![PointSegView::Space("hyperspace"@), PointSegView::Base("users"@)],
    }
}

/// The index of the last version among the first `n` segments, if there is
/// a version among them.
pub open spec fn last_version(segments: Seq<PointSegView>, n: int) -> Option<int>
    decreases n,
{
    if n <= 0 || n > segments.len() {
        None
    } else if segments[n - 1] is Version {
        Some(n - 1)
    } else {
        last_version(segments, n - 1)
    }
}

/// The index of the first segment of the given kind from `from` on, if
/// there is one.
pub open spec fn first_of_kind(segments: Seq<PointSegView>, kind: PointSegKind, from: int) -> Option<
    int,
>
    decreases segments.len() - from,
{
    if from < 0 || from >= segments.len() {
        None
    } else if segments[from].kind() == kind {
        Some(from)
    } else {
        first_of_kind(segments, kind, from + 1)
    }
}

/// The path of the first `n` segments in their file system: the texts of
/// the root, the directories and the files among them.
pub open spec fn file_path(segments: Seq<PointSegView>, n: int) -> Seq<char>
    decreases n,
{
    if n <= 0 || n > segments.len() {
        Seq::empty()
    } else {
        file_path(segments, n - 1) + (match segments[n - 1] {
            PointSegView::FilesystemRootDir => "/"@,
            PointSegView::Dir(dir) => dir,
            PointSegView::File(file) => file,
            _ => Seq::empty(),
        })
    }
}

impl Point {
    /// Reads a point from the whole of `s`: see [`point_of`].
    pub fn from_str(s: &str) -> (r: Result<Point, SpaceErr>)
        ensures
            match point_of(s@) {
                Some(point) => r matches Ok(found) && found@ == point,
                None => r matches Err(error) && error@ == SpaceErrView::ParseErrs("Point"@),
            },
    {
        consume_point(s)
    }

    /// Whether two points are the same.
    pub fn same(&self, other: &Point) -> (r: bool)
        ensures
            r == (self@ == other@),
    {
        if !self.route.same(&other.route) || self.segments.len() != other.segments.len() {
            assert(self@.segments.len() == self.segments.len());
            assert(other@.segments.len() == other.segments.len());
            return false;
        }
        let mut i: usize = 0;
        while i < self.segments.len()
            invariant
                i <= self.segments.len(),
                self.segments.len() == other.segments.len(),
                forall|j: int| 0 <= j < i ==> self@.segments[j] == other@.segments[j],
            decreases self.segments.len() - i,
        {
            if !self.segments[i].same(&other.segments[i]) {
                assert(self@.segments[i as int] == self.segments[i as int]@);
                assert(other@.segments[i as int] == other.segments[i as int]@);
                return false;
            }
            assert(self@.segments[i as int] == self.segments[i as int]@);
            assert(other@.segments[i as int] == other.segments[i as int]@);
            i += 1;
        }
        assert(self@.segments =~= other@.segments);
        true
    }

    /// The point `GLOBAL::central`.
    pub fn central() -> (r: Self)
        ensures
            r@ == (PointDefView {
                route: RouteSegView::Global,
                segments: seq![PointSegView::Space("central"@)],
            }),
    {
        point_in_space(RouteSeg::Global, "central")
    }

    /// The point `GLOBAL::executor`.
    pub fn global_executor() -> (r: Self)
        ensures
            r@ == (PointDefView {
                route: RouteSegView::Global,
                segments: seq![PointSegView::Space("executor"@)],
            }),
    {
        point_in_space(RouteSeg::Global, "executor")
    }

    /// The point `GLOBAL::logger`.
    pub fn global_logger() -> (r: Self)
        ensures
            r@ == (PointDefView {
                route: RouteSegView::Global,
                segments: seq![PointSegView::Space("logger"@)],
            }),
    {
        point_in_space(RouteSeg::Global, "logger")
    }

    /// The point `GLOBAL::registry`.
    pub fn global_registry() -> (r: Self)
        ensures
            r@ == (PointDefView {
                route: RouteSegView::Global,
                segments: seq![PointSegView::Space("registry"@)],
            }),
    {
        point_in_space(RouteSeg::Global, "registry")
    }

    /// The point `LOCAL::portal`.
    pub fn local_portal() -> (r: Self)
        ensures
            r@ == (PointDefView {
                route: RouteSegView::Local,
                segments: seq![PointSegView::Space("portal"@)],
            }),
    {
        point_in_space(RouteSeg::Local, "portal")
    }

    /// The point `LOCAL::star`.
    pub fn local_star() -> (r: Self)
        ensures
            r@ == (PointDefView {
                route: RouteSegView::Local,
                segments: seq![PointSegView::Space("star"@)],
            }),
    {
        point_in_space(RouteSeg::Local, "star")
    }

    /// The point `LOCAL::hypergate`.
    pub fn local_hypergate() -> (r: Self)
        ensures
            r@ == (PointDefView {
                route: RouteSegView::Local,
                segments: seq![PointSegView::Space("hypergate"@)],
            }),
    {
        point_in_space(RouteSeg::Local, "hypergate")
    }

    /// The point `LOCAL::endpoint`.
    pub fn local_endpoint() -> (r: Self)
        ensures
            r@ == (PointDefView {
                route: RouteSegView::Local,
                segments: seq![PointSegView::Space("endpoint"@)],
            }),
    {
        point_in_space(RouteSeg::Local, "endpoint")
    }

    /// The point `REMOTE::endpoint`.
    pub fn remote_endpoint() -> (r: Self)
        ensures
            r@ == (PointDefView {
                route: RouteSegView::Remote,
                segments: seq![PointSegView::Space("endpoint"@)],
            }),
    {
        point_in_space(RouteSeg::Remote, "endpoint")
    }

    /// The point `hyperspace:users`.
    pub fn hyper_userbase() -> (r: Self)
        ensures
            r@ == hyper_userbase_view(),
    {
        let mut point = point_in_space(RouteSeg::This, "hyperspace");
        let ghost before = point.segments.deep_view();
        point.segments.push(PointSeg::Base(String::from_str("users")));
        assert(point.segments.deep_view() =~= before.push(PointSegView::Base("users"@)));
        assert(point@.segments =~= hyper_userbase_view().segments);
        point
    }

    /// The point `hyperspace:users:hyperuser`.
    pub fn hyperuser() -> (r: Self)
        ensures
            r@ == (PointDefView {
                segments: hyper_userbase_view().segments.push(PointSegView::Base("hyperuser"@)),
                ..hyper_userbase_view()
            }),
    {
        let mut point = Self::hyper_userbase();
        let ghost before = point.segments.deep_view();
        point.segments.push(PointSeg::Base(String::from_str("hyperuser")));
        assert(point.segments.deep_view() =~= before.push(PointSegView::Base("hyperuser"@)));
        point
    }

    /// The point `hyperspace:users:anonymous`.
    pub fn anonymous() -> (r: Self)
        ensures
            r@ == (PointDefView {
                segments: hyper_userbase_view().segments.push(PointSegView::Base("anonymous"@)),
                ..hyper_userbase_view()
            }),
    {
        let mut point = Self::hyper_userbase();
        let ghost before = point.segments.deep_view();
        point.segments.push(PointSeg::Base(String::from_str("anonymous")));
        assert(point.segments.deep_view() =~= before.push(PointSegView::Base("anonymous"@)));
        point
    }

    /// Who acts for the particle at the point: the hyper user at its point,
    /// nobody in particular at the point of the anonymous user, else the
    /// particle itself.
    pub fn to_agent(&self) -> (r: Agent)
        ensures
            match r {
                Agent::HyperUser => self@.segments == hyper_userbase_view().segments.push(
                    PointSegView::Base("hyperuser"@),
                ) && self@.route is This,
                Agent::Anonymous => self@.segments == hyper_userbase_view().segments.push(
                    PointSegView::Base("anonymous"@),
                ) && self@.route is This,
                Agent::Point(point) => point@ == self@ && !(self@.route is This && (
                self@.segments == hyper_userbase_view().segments.push(
                    PointSegView::Base("hyperuser"@),
                ) || self@.segments == hyper_userbase_view().segments.push(
                    PointSegView::Base("anonymous"@),
                ))),
            },
    {
        if self.same(&Self::hyperuser()) {
            Agent::HyperUser
        } else if self.same(&Self::anonymous()) {
            Agent::Anonymous
        } else {
            Agent::Point(self.clone())
        }
    }

    /// Whether the route of the point is the global one.
    pub fn is_global(&self) -> (r: bool)
        ensures
            r == (self@.route is Global),
    {
        match self.route {
            RouteSeg::Global => true,
            _ => false,
        }
    }

    /// Whether the segments of this point are the first segments of
    /// `point`.
    fn begins(&self, point: &Point) -> (r: bool)
        requires
            self.segments.len() <= point.segments.len(),
        ensures
            r == (self@.segments == point@.segments.take(self@.segments.len() as int)),
    {
        let mut i: usize = 0;
        while i < self.segments.len()
            invariant
                i <= self.segments.len(),
                self.segments.len() <= point.segments.len(),
                forall|j: int| 0 <= j < i ==> self@.segments[j] == point@.segments[j],
            decreases self.segments.len() - i,
        {
            assert(self@.segments[i as int] == self.segments[i as int]@);
            assert(point@.segments[i as int] == point.segments[i as int]@);
            if !self.segments[i].same(&point.segments[i]) {
                assert(point@.segments.take(self@.segments.len() as int)[i as int]
                    == point@.segments[i as int]);
                return false;
            }
            i += 1;
        }
        assert(self@.segments =~= point@.segments.take(self@.segments.len() as int));
        true
    }

    /// Whether `point` lies at or under this point: on the same route, with
    /// the segments of this point as its first segments.
    pub fn is_parent_of(&self, point: &Point) -> (r: bool)
        ensures
            r == (self@.route == point@.route && self@.segments.len() <= point@.segments.len()
                && self@.segments == point@.segments.take(self@.segments.len() as int)),
    {
        if self.segments.len() > point.segments.len() {
            return false;
        }
        if !self.route.same(&point.route) {
            return false;
        }
        self.begins(point)
    }

    /// Whether `child` lies under this point, and is not this point itself.
    pub fn is_parent(&self, child: &Point) -> (r: Result<(), ()>)
        ensures
            r is Ok == (self@.route == child@.route && self@.segments.len() < child@.segments.len()
                && self@.segments == child@.segments.take(self@.segments.len() as int)),
    {
        if !self.route.same(&child.route) {
            return Err(());
        }
        if self.segments.len() >= child.segments.len() {
            return Err(());
        }
        if self.begins(child) {
            Ok(())
        } else {
            Err(())
        }
    }

    /// Whether every segment stands for itself: in a point without
    /// variables every segment does.
    pub fn is_normalized(&self) -> (r: bool)
        ensures
            r,
    {
        let mut i: usize = 0;
        while i < self.segments.len()
            invariant
                i <= self.segments.len(),
            decreases self.segments.len() - i,
        {
            if !self.segments[i].is_normalized() {
                return false;
            }
            i += 1;
        }
        true
    }

    /// The point with every segment standing for itself: the point as it
    /// is.
    pub fn normalize(self) -> (r: Result<Point, SpaceErr>)
        ensures
            r == Ok::<Point, SpaceErr>(self),
    {
        if self.is_normalized() {
            return Ok(self);
        }
        Err(SpaceErr::new("absolute point paths cannot begin with '..'"))
    }

    /// The point with its segments cut after the segment at `last`.
    fn cut_after(self, last: usize) -> (r: Point)
        requires
            last < self.segments.len(),
        ensures
            r@ == (PointDefView { route: self@.route, segments: self@.segments.take(last + 1) }),
    {
        let mut point = self;
        point.segments.truncate(last + 1);
        assert(point.segments.deep_view() =~= self@.segments.take(last + 1));
        point
    }

    /// The index of the last version among the segments.
    fn find_bundle(&self) -> (r: Option<usize>)
        ensures
            match last_version(self@.segments, self@.segments.len() as int) {
                Some(i) => r == Some(i as usize) && 0 <= i < self.segments.len(),
                None => r.is_none(),
            },
    {
        let mut n: usize = self.segments.len();
        while n > 0
            invariant
                n <= self.segments.len(),
                last_version(self@.segments, n as int) == last_version(
                    self@.segments,
                    self@.segments.len() as int,
                ),
            decreases n,
        {
            assert(self@.segments[n - 1] == self.segments[n - 1]@);
            if self.segments[n - 1].is_version() {
                return Some(n - 1);
            }
            n -= 1;
        }
        None
    }

    /// The bundle that the point lies in: the point up to its last version.
    /// A point without a version lies in no bundle.
    pub fn to_bundle(self) -> (r: Result<Point, SpaceErr>)
        ensures
            match last_version(self@.segments, self@.segments.len() as int) {
                Some(i) => r matches Ok(bundle) && bundle@ == (PointDefView {
                    route: self@.route,
                    segments: self@.segments.take(i + 1),
                }),
                None => r matches Err(error) && error@ == (SpaceErrView::Status {
                    status: 500,
                    message: "Point does not contain a bundle"@,
                }),
            },
    {
        match self.find_bundle() {
            Some(i) => Ok(self.cut_after(i)),
            None => Err(SpaceErr::new("Point does not contain a bundle")),
        }
    }

    /// Whether the point lies in a bundle: whether one of its segments is a
    /// version.
    pub fn has_bundle(&self) -> (r: bool)
        ensures
            r == last_version(self@.segments, self@.segments.len() as int).is_some(),
    {
        self.find_bundle().is_some()
    }

    /// The text of the point, for the name of a file.
    pub fn to_safe_filename(&self) -> (r: String)
        ensures
            r@ == self.text(),
    {
        self.to_string()
    }

    /// The index of the first segment of the given kind.
    fn find_kind(&self, kind: PointSegKind) -> (r: Option<usize>)
        ensures
            match first_of_kind(self@.segments, kind, 0) {
                Some(i) => r == Some(i as usize) && 0 <= i < self.segments.len(),
                None => r.is_none(),
            },
    {
        let mut i: usize = 0;
        while i < self.segments.len()
            invariant
                i <= self.segments.len(),
                first_of_kind(self@.segments, kind, i as int) == first_of_kind(
                    self@.segments,
                    kind,
                    0,
                ),
            decreases self.segments.len() - i,
        {
            assert(self@.segments[i as int] == self.segments[i as int]@);
            if self.segments[i].kind() == kind {
                return Some(i);
            }
            i += 1;
        }
        None
    }

    /// Whether one of the segments is the root of a file system.
    pub fn has_filesystem(&self) -> (r: bool)
        ensures
            r == first_of_kind(self@.segments, PointSegKind::FilesystemRootDir, 0).is_some(),
    {
        self.find_kind(PointSegKind::FilesystemRootDir).is_some()
    }

    /// Whether the point lies in an artifact bundle: whether one of its
    /// segments is a version.
    pub fn is_artifact_bundle_part(&self) -> (r: bool)
        ensures
            r == first_of_kind(self@.segments, PointSegKind::Version, 0).is_some(),
    {
        self.find_kind(PointSegKind::Version).is_some()
    }

    /// Whether the point is an artifact: a file in an artifact bundle.
    pub fn is_artifact(&self) -> (r: bool)
        ensures
            r == (self@.segments.len() > 0 && self@.segments.last() is File && first_of_kind(
                self@.segments,
                PointSegKind::Version,
                0,
            ).is_some()),
    {
        let n = self.segments.len();
        if n == 0 {
            return false;
        }
        assert(self@.segments[n - 1] == self.segments[n - 1]@);
        self.is_artifact_bundle_part() && self.segments[n - 1].is_file()
    }

    /// Whether the point is an artifact bundle: whether its last segment is
    /// a version.
    pub fn is_artifact_bundle(&self) -> (r: bool)
        ensures
            r == (self@.segments.len() > 0 && self@.segments.last() is Version),
    {
        let n = self.segments.len();
        if n == 0 {
            return false;
        }
        assert(self@.segments[n - 1] == self.segments[n - 1]@);
        self.segments[n - 1].is_version()
    }

    /// The point without its last segment; the root stays the root.
    pub fn pop(&self) -> (r: Self)
        ensures
            r@ == (PointDefView {
                route: self@.route,
                segments: if self@.segments.len() > 0 {
                    self@.segments.drop_last()
                } else {
                    self@.segments
                },
            }),
    {
        let mut point = self.clone();
        let ghost before = point.segments.deep_view();
        point.segments.pop();
        assert(point.segments.deep_view() =~= if before.len() > 0 {
            before.drop_last()
        } else {
            before
        });
        point
    }

    /// The text that is read when `segment` is pushed: the segment alone
    /// on the root, else the text of the point and the segment, with a colon
    /// between them where the point does not end in a file system and the
    /// segment does not bring its colon along. Nothing can be pushed onto a
    /// file.
    pub open spec fn pushed_text(&self, segment: Seq<char>) -> Option<Seq<char>> {
        if self.segments.len() == 0 {
            Some(segment)
        } else {
            match self@.segments.last() {
                PointSegView::Root => Some(segment),
                PointSegView::Space(_) => Some(self.text() + ":"@ + segment),
                PointSegView::Base(_) => Some(self.text() + ":"@ + segment),
                PointSegView::FilesystemRootDir => Some(self.text() + segment),
                PointSegView::Dir(_) => Some(self.text() + segment),
                PointSegView::Version(_) => if segment.len() > 0 && segment[0] == ':' {
                    Some(self.text() + segment)
                } else {
                    Some(self.text() + ":"@ + segment)
                },
                PointSegView::File(_) => None,
            }
        }
    }

    /// The point that the text stands for, on the route of this point.
    fn read_on_route(&self, text: &str) -> (r: Result<Self, SpaceErr>)
        ensures
            match point_of(text@) {
                Some(point) => r matches Ok(found) && found@ == (PointDefView {
                    route: self@.route,
                    segments: point.segments,
                }),
                None => r matches Err(error) && error@ == SpaceErrView::ParseErrs("Point"@),
            },
    {
        match consume_point(text) {
            Ok(mut point) => {
                point.route = self.route.clone();
                Ok(point)
            },
            Err(error) => Err(error),
        }
    }

    /// The point with `segment` after it: the text of this point and the
    /// segment are put together and read as a point, which keeps the route
    /// of this point. See [`PointDef::pushed_text`] and [`point_of`].
    pub fn push(&self, segment: &str) -> (r: Result<Self, SpaceErr>)
        ensures
            self.text() == point_text(self@),
            self.pushed_text(segment@) == pushed_text_of(self@, segment@),
            match self.pushed_text(segment@) {
                Some(text) => match point_of(text) {
                    Some(point) => r matches Ok(found) && found@ == (PointDefView {
                        route: self@.route,
                        segments: point.segments,
                    }),
                    None => r matches Err(error) && error@ == SpaceErrView::ParseErrs("Point"@),
                },
                None => r matches Err(error) && error@ == (SpaceErrView::Status {
                    status: 500,
                    message: "cannot append to a file"@,
                }),
            },
    {
        proof {
            lemma_point_text(self);
        }
        let n = self.segments.len();
        if n == 0 {
            return self.read_on_route(segment);
        }
        assert(self@.segments[n - 1] == self.segments[n - 1]@);
        let colon = match &self.segments[n - 1] {
            PointSeg::Root => {
                return self.read_on_route(segment);
            },
            PointSeg::Space(_) => true,
            PointSeg::Base(_) => true,
            PointSeg::FilesystemRootDir => false,
            PointSeg::Dir(_) => false,
            PointSeg::Version(_) => !is_char_at(segment, 0, ':'),
            PointSeg::File(_) => {
                return Err(SpaceErr::new("cannot append to a file"));
            },
        };
        let mut text = self.to_string();
        if colon {
            text.append(":");
        }
        text.append(segment);
        self.read_on_route(text.as_str())
    }

    /// The point that the text of this point with `segment` right after it
    /// stands for.
    pub fn push_file(&self, segment: String) -> (r: Result<Self, SpaceErr>)
        ensures
            match point_of(self.text() + segment@) {
                Some(point) => r matches Ok(found) && found@ == point,
                None => r matches Err(error) && error@ == SpaceErrView::ParseErrs("Point"@),
            },
    {
        let mut text = self.to_string();
        text.append(segment.as_str());
        consume_point(text.as_str())
    }

    /// Whether `segment` may follow the segments of the point: a segment of
    /// the mesh always, a segment of a file system after the root of one.
    pub open spec fn takes_segment(&self, segment: PointSegView) -> bool {
        (first_of_kind(self@.segments, PointSegKind::FilesystemRootDir, 0).is_some()
            && segment.kind().filesystem_seg()) || segment.kind().mesh_seg()
    }

    /// The point with `segment` after it, where the segment may stand
    /// there.
    pub fn push_segment(&self, segment: PointSeg) -> (r: Result<Self, SpaceErr>)
        ensures
            self.takes_segment(segment@) ==> (r matches Ok(found) && found@ == (PointDefView {
                route: self@.route,
                segments: self@.segments.push(segment@),
            })),
            !self.takes_segment(segment@) ==> (r matches Err(error) && error@ == (
            SpaceErrView::Status {
                status: 500,
                message: if first_of_kind(
                    self@.segments,
                    PointSegKind::FilesystemRootDir,
                    0,
                ).is_some() {
                    "cannot push a Mesh segment onto a point after the FileSystemRoot segment has been pushed"@
                } else {
                    "cannot push a FileSystem segment onto a point until after the FileSystemRoot segment has been pushed"@
                },
            })),
    {
        if (self.has_filesystem() && segment.is_filesystem_seg()) || segment.kind().is_mesh_seg() {
            let mut point = self.clone();
            let ghost before = point.segments.deep_view();
            point.segments.push(segment);
            assert(point.segments.deep_view() =~= before.push(segment@));
            Ok(point)
        } else {
            if self.has_filesystem() {
                Err(
                    SpaceErr::new(
                        "cannot push a Mesh segment onto a point after the FileSystemRoot segment has been pushed",
                    ),
                )
            } else {
                Err(
                    SpaceErr::new(
                        "cannot push a FileSystem segment onto a point until after the FileSystemRoot segment has been pushed",
                    ),
                )
            }
        }
    }

    /// The path of the point in its file system, if it has one.
    pub fn filepath(&self) -> (r: Option<String>)
        ensures
            match r {
                Some(path) => path@ == file_path(self@.segments, self@.segments.len() as int)
                    && path@.len() > 0,
                None => file_path(self@.segments, self@.segments.len() as int).len() == 0,
            },
    {
        let mut path = String::new();
        let mut i: usize = 0;
        assert(path@ =~= file_path(self@.segments, 0));
        while i < self.segments.len()
            invariant
                i <= self.segments.len(),
                path@ == file_path(self@.segments, i as int),
            decreases self.segments.len() - i,
        {
            assert(self@.segments[i as int] == self.segments[i as int]@);
            match &self.segments[i] {
                PointSeg::FilesystemRootDir => {
                    path.append("/");
                },
                PointSeg::Dir(dir) => {
                    path.append(dir.as_str());
                },
                PointSeg::File(file) => {
                    path.append(file.as_str());
                },
                _ => {
                    assert(path@ + Seq::<char>::empty() =~= path@);
                },
            }
            i += 1;
        }
        if char_len(path.as_str()) == 0 {
            None
        } else {
            Some(path)
        }
    }

    /// Whether the point ends in a file system.
    pub fn is_filesystem_ref(&self) -> (r: bool)
        ensures
            r == (self@.segments.len() > 0 && self@.segments.last().kind().filesystem_seg()),
    {
        let n = self.segments.len();
        if n == 0 {
            return false;
        }
        assert(self@.segments[n - 1] == self.segments[n - 1]@);
        self.segments[n - 1].is_filesystem_seg()
    }

    /// The point up to its first segment of the given kind. A point
    /// without such a segment has no such part, which is a failure with the
    /// status 404.
    pub fn truncate(self, kind: PointSegKind) -> (r: Result<Point, SpaceErr>)
        ensures
            match first_of_kind(self@.segments, kind, 0) {
                Some(i) => r matches Ok(found) && found@ == (PointDefView {
                    route: self@.route,
                    segments: self@.segments.take(i + 1),
                }),
                None => r matches Err(error) && error@ == (SpaceErrView::Status {
                    status: 404,
                    message: "Point segment kind: "@ + kind.name() + " not found in point: "@
                        + self.text(),
                }),
            },
    {
        match self.find_kind(kind) {
            Some(i) => Ok(self.cut_after(i)),
            None => {
                let mut message = String::from_str("Point segment kind: ");
                let name = kind.to_string();
                message.append(name.as_str());
                message.append(" not found in point: ");
                let text = self.to_string();
                message.append(text.as_str());
                Err(SpaceErr::Status { status: 404, message })
            },
        }
    }

    /// The root on the route of the place where the point stands.
    pub fn root() -> (r: Self)
        ensures
            r@ == (PointDefView { route: RouteSegView::This, segments: Seq::<PointSegView>::empty() }),
    {
        Self::root_with_route(RouteSeg::This)
    }

    /// The root on `route`.
    pub fn root_with_route(route: RouteSeg) -> (r: Self)
        ensures
            r@ == (PointDefView { route: route@, segments: Seq::<PointSegView>::empty() }),
    {
        let segments: Vec<PointSeg> = Vec::new();
        assert(segments.deep_view() =~= Seq::<PointSegView>::empty());
        Self { route, segments }
    }

    /// Whether the point is the root on the route of the place where it
    /// stands.
    pub fn is_local_root(&self) -> (r: bool)
        ensures
            r == (self@.segments.len() == 0 && self@.route is This),
    {
        self.segments.is_empty() && self.route.is_local()
    }
}

} // verus!
