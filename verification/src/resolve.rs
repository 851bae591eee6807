//! Points that are not yet addresses: they may hold variables, and they may
//! refer to the working point. They become addresses when they are resolved
//! against an environment.

use vstd::prelude::*;
use crate::lex::{char_at, char_len, is_char_at, rest, slice, span, span_end, CharClass};
use crate::parse::{word_end, word_to, SpaceErr, SpaceErrView, Text, Version};
use crate::point::{
    collapsed_route, file_segments_at, lemma_point_text, mesh_segment_of, point_of, point_text,
    pushed_text_of, read_file_segments, read_mesh_segment, read_route, route_at, Point, PointDef,
    PointDefView, PointSeg, PointSegKind, PointSegQuery, PointSegView, PointView, RouteSeg,
    RouteSegVar, RouteSegVarView, RouteSegView, Trace, Variable, VariableView,
};
use crate::text::same_text;

verus! {

/// The mathematical value of a [`PointSegCtx`].
pub ghost enum PointSegCtxView {
    Root,
    Space(Seq<char>),
    Base(Seq<char>),
    FilesystemRootDir,
    Dir(Seq<char>),
    File(Seq<char>),
    Version(Seq<char>),
    Working(Trace),
    Pop(Trace),
}

/// A segment of a point that may stand for the working point or for the way
/// up from it.
#[derive(Debug, PartialEq, Eq, Hash)]
pub enum PointSegCtx {
    Root,
    Space(String),
    Base(String),
    FilesystemRootDir,
    Dir(String),
    File(String),
    Version(Version),
    Working(Trace),
    Pop(Trace),
}

impl View for PointSegCtx {
    type V = PointSegCtxView;

    open spec fn view(&self) -> PointSegCtxView {
        match self {
            PointSegCtx::Root => PointSegCtxView::Root,
            PointSegCtx::Space(a) => PointSegCtxView::Space(a@),
            PointSegCtx::Base(a) => PointSegCtxView::Base(a@),
            PointSegCtx::FilesystemRootDir => PointSegCtxView::FilesystemRootDir,
            PointSegCtx::Dir(a) => PointSegCtxView::Dir(a@),
            PointSegCtx::File(a) => PointSegCtxView::File(a@),
            PointSegCtx::Version(a) => PointSegCtxView::Version(a@),
            PointSegCtx::Working(a) => PointSegCtxView::Working(*a),
            PointSegCtx::Pop(a) => PointSegCtxView::Pop(*a),
        }
    }
}

impl DeepView for PointSegCtx {
    type V = PointSegCtxView;

    open spec fn deep_view(&self) -> PointSegCtxView {
        self@
    }
}

impl Clone for PointSegCtx {
    fn clone(&self) -> (r: Self)
        ensures
            r@ == self@,
    {
        match self {
            PointSegCtx::Root => PointSegCtx::Root,
            PointSegCtx::Space(a) => PointSegCtx::Space(a.clone()),
            PointSegCtx::Base(a) => PointSegCtx::Base(a.clone()),
            PointSegCtx::FilesystemRootDir => PointSegCtx::FilesystemRootDir,
            PointSegCtx::Dir(a) => PointSegCtx::Dir(a.clone()),
            PointSegCtx::File(a) => PointSegCtx::File(a.clone()),
            PointSegCtx::Version(a) => PointSegCtx::Version(a.clone()),
            PointSegCtx::Working(a) => PointSegCtx::Working(*a),
            PointSegCtx::Pop(a) => PointSegCtx::Pop(*a),
        }
    }
}

/// The mathematical value of a [`PointSegVar`].
pub ghost enum PointSegVarView {
    Root,
    Space(Seq<char>),
    Base(Seq<char>),
    FilesystemRootDir,
    Dir(Seq<char>),
    File(Seq<char>),
    Version(Seq<char>),
    Working(Trace),
    Pop(Trace),
    Var(VariableView),
}

/// A segment of a point that may also be a variable.
#[derive(Debug, PartialEq, Eq, Hash)]
pub enum PointSegVar {
    Root,
    Space(String),
    Base(String),
    FilesystemRootDir,
    Dir(String),
    File(String),
    Version(Version),
    Working(Trace),
    Pop(Trace),
    Var(Variable),
}

impl View for PointSegVar {
    type V = PointSegVarView;

    open spec fn view(&self) -> PointSegVarView {
        match self {
            PointSegVar::Root => PointSegVarView::Root,
            PointSegVar::Space(a) => PointSegVarView::Space(a@),
            PointSegVar::Base(a) => PointSegVarView::Base(a@),
            PointSegVar::FilesystemRootDir => PointSegVarView::FilesystemRootDir,
            PointSegVar::Dir(a) => PointSegVarView::Dir(a@),
            PointSegVar::File(a) => PointSegVarView::File(a@),
            PointSegVar::Version(a) => PointSegVarView::Version(a@),
            PointSegVar::Working(a) => PointSegVarView::Working(*a),
            PointSegVar::Pop(a) => PointSegVarView::Pop(*a),
            PointSegVar::Var(a) => PointSegVarView::Var(a@),
        }
    }
}

impl DeepView for PointSegVar {
    type V = PointSegVarView;

    open spec fn deep_view(&self) -> PointSegVarView {
        self@
    }
}

impl Clone for PointSegVar {
    fn clone(&self) -> (r: Self)
        ensures
            r@ == self@,
    {
        match self {
            PointSegVar::Root => PointSegVar::Root,
            PointSegVar::Space(a) => PointSegVar::Space(a.clone()),
            PointSegVar::Base(a) => PointSegVar::Base(a.clone()),
            PointSegVar::FilesystemRootDir => PointSegVar::FilesystemRootDir,
            PointSegVar::Dir(a) => PointSegVar::Dir(a.clone()),
            PointSegVar::File(a) => PointSegVar::File(a.clone()),
            PointSegVar::Version(a) => PointSegVar::Version(a.clone()),
            PointSegVar::Working(a) => PointSegVar::Working(*a),
            PointSegVar::Pop(a) => PointSegVar::Pop(*a),
            PointSegVar::Var(a) => PointSegVar::Var(a.clone()),
        }
    }
}

/// Why a variable has no value: there are no variables here, or there is
/// none of that name.
#[derive(Clone, Copy, Debug, PartialEq, Eq, Hash, Structural)]
pub enum ResolverErr {
    NotAvailable,
    NotFound,
}

/// The mathematical value of a [`Binding`].
pub ghost struct BindingView {
    pub name: Seq<char>,
    pub value: Seq<char>,
}

/// A variable and its value.
#[derive(Debug, PartialEq, Eq, Hash)]
pub struct Binding {
    pub name: String,
    pub value: String,
}

impl View for Binding {
    type V = BindingView;

    open spec fn view(&self) -> BindingView {
        BindingView {
            name: self.name@,
            value: self.value@,
        }
    }
}

impl DeepView for Binding {
    type V = BindingView;

    open spec fn deep_view(&self) -> BindingView {
        self@
    }
}

impl Clone for Binding {
    fn clone(&self) -> (r: Self)
        ensures
            r@ == self@,
    {
        let r = Binding {
            name: self.name.clone(),
            value: self.value.clone(),
        };
        r
    }
}

/// The mathematical value of a [`Env`].
pub ghost struct EnvView {
    pub point: Option<PointView>,
    pub vars: Option<Seq<BindingView>>,
}

/// What a point is resolved against: the working point, if there is one, and
/// the variables, if there are any.
#[derive(Debug, PartialEq, Eq, Hash)]
pub struct Env {
    pub point: Option<Point>,
    pub vars: Option<Vec<Binding>>,
}

impl View for Env {
    type V = EnvView;

    open spec fn view(&self) -> EnvView {
        EnvView {
            point: self.point.deep_view(),
            vars: self.vars.deep_view(),
        }
    }
}

impl DeepView for Env {
    type V = EnvView;

    open spec fn deep_view(&self) -> EnvView {
        self@
    }
}

impl Clone for Env {
    fn clone(&self) -> (r: Self)
        ensures
            r@ == self@,
    {
        let r = Env {
            point: self.point.clone(),
            vars: self.vars.clone(),
        };
        assert(r.vars.deep_view() == self.vars.deep_view()) by {
            if self.vars is Some {
                assert(r.vars->0.deep_view() =~= self.vars->0.deep_view());
            }
        }
        r
    }
}

/// A point that may refer to the working point.
pub type PointCtx = PointDef<RouteSeg, PointSegCtx>;

/// A point that may hold variables and refer to the working point.
pub type PointVar = PointDef<RouteSegVar, PointSegVar>;

/// The mathematical value of a [`PointCtx`].
pub type PointCtxView = PointDefView<RouteSegView, PointSegCtxView>;

/// The mathematical value of a [`PointVar`].
pub type PointVarView = PointDefView<RouteSegVarView, PointSegVarView>;

impl Clone for PointCtx {
    fn clone(&self) -> (r: Self)
        ensures
            r@ == self@,
    {
        let r = PointDef { route: self.route.clone(), segments: self.segments.clone() };
        assert(r.segments.deep_view() =~= self.segments.deep_view());
        r
    }
}

impl Clone for PointVar {
    fn clone(&self) -> (r: Self)
        ensures
            r@ == self@,
    {
        let r = PointDef { route: self.route.clone(), segments: self.segments.clone() };
        assert(r.segments.deep_view() =~= self.segments.deep_view());
        r
    }
}

impl PointSegCtxView {
    /// The kind of a segment.
    pub open spec fn kind(self) -> PointSegKind {
        match self {
            PointSegCtxView::Root => PointSegKind::Root,
            PointSegCtxView::Space(_) => PointSegKind::Space,
            PointSegCtxView::Base(_) => PointSegKind::Base,
            PointSegCtxView::FilesystemRootDir => PointSegKind::FilesystemRootDir,
            PointSegCtxView::Dir(_) => PointSegKind::Dir,
            PointSegCtxView::File(_) => PointSegKind::File,
            PointSegCtxView::Version(_) => PointSegKind::Version,
            PointSegCtxView::Pop(_) => PointSegKind::Pop,
            PointSegCtxView::Working(_) => PointSegKind::Working,
        }
    }

    /// The text of a segment.
    pub open spec fn text(self) -> Seq<char> {
        match self {
            PointSegCtxView::Root => ""@,
            PointSegCtxView::Space(space) => space,
            PointSegCtxView::Base(base) => base,
            PointSegCtxView::FilesystemRootDir => "/"@,
            PointSegCtxView::Dir(dir) => dir,
            PointSegCtxView::File(file) => file,
            PointSegCtxView::Version(version) => version,
            PointSegCtxView::Working(_) => "."@,
            PointSegCtxView::Pop(_) => ".."@,
        }
    }

    /// The same segment as one that may also be a variable.
    pub open spec fn as_var(self) -> PointSegVarView {
        match self {
            PointSegCtxView::Root => PointSegVarView::Root,
            PointSegCtxView::Space(space) => PointSegVarView::Space(space),
            PointSegCtxView::Base(base) => PointSegVarView::Base(base),
            PointSegCtxView::FilesystemRootDir => PointSegVarView::FilesystemRootDir,
            PointSegCtxView::Dir(dir) => PointSegVarView::Dir(dir),
            PointSegCtxView::File(file) => PointSegVarView::File(file),
            PointSegCtxView::Version(version) => PointSegVarView::Version(version),
            PointSegCtxView::Working(trace) => PointSegVarView::Working(trace),
            PointSegCtxView::Pop(trace) => PointSegVarView::Pop(trace),
        }
    }

    /// The segment as one that stands for itself, or why it is none.
    pub open spec fn as_seg(self) -> Result<PointSegView, SpaceErrView> {
        match self {
            PointSegCtxView::Root => Ok(PointSegView::Root),
            PointSegCtxView::Space(space) => Ok(PointSegView::Space(space)),
            PointSegCtxView::Base(base) => Ok(PointSegView::Base(base)),
            PointSegCtxView::FilesystemRootDir => Ok(PointSegView::FilesystemRootDir),
            PointSegCtxView::Dir(dir) => Ok(PointSegView::Dir(dir)),
            PointSegCtxView::File(file) => Ok(PointSegView::File(file)),
            PointSegCtxView::Version(version) => Ok(PointSegView::Version(version)),
            PointSegCtxView::Working(_) => Err(
                SpaceErrView::ParseErrs("working point not available in this context"@),
            ),
            PointSegCtxView::Pop(_) => Err(
                SpaceErrView::ParseErrs("point pop not available in this context"@),
            ),
        }
    }
}

impl PointSegView {
    /// The same segment as one that may refer to the working point.
    pub open spec fn as_ctx(self) -> PointSegCtxView {
        match self {
            PointSegView::Root => PointSegCtxView::Root,
            PointSegView::Space(space) => PointSegCtxView::Space(space),
            PointSegView::Base(base) => PointSegCtxView::Base(base),
            PointSegView::FilesystemRootDir => PointSegCtxView::FilesystemRootDir,
            PointSegView::Dir(dir) => PointSegCtxView::Dir(dir),
            PointSegView::File(file) => PointSegCtxView::File(file),
            PointSegView::Version(version) => PointSegCtxView::Version(version),
        }
    }
}

impl PointSegVarView {
    /// The kind of a segment.
    pub open spec fn kind(self) -> PointSegKind {
        match self {
            PointSegVarView::Root => PointSegKind::Root,
            PointSegVarView::Space(_) => PointSegKind::Space,
            PointSegVarView::Base(_) => PointSegKind::Base,
            PointSegVarView::FilesystemRootDir => PointSegKind::FilesystemRootDir,
            PointSegVarView::Dir(_) => PointSegKind::Dir,
            PointSegVarView::File(_) => PointSegKind::File,
            PointSegVarView::Version(_) => PointSegKind::Version,
            PointSegVarView::Pop(_) => PointSegKind::Pop,
            PointSegVarView::Working(_) => PointSegKind::Working,
            PointSegVarView::Var(_) => PointSegKind::Var,
        }
    }

    /// The text of a segment.
    pub open spec fn text(self) -> Seq<char> {
        match self {
            PointSegVarView::Root => ""@,
            PointSegVarView::Space(space) => space,
            PointSegVarView::Base(base) => base,
            PointSegVarView::FilesystemRootDir => "/"@,
            PointSegVarView::Dir(dir) => dir,
            PointSegVarView::File(file) => file,
            PointSegVarView::Version(version) => version,
            PointSegVarView::Working(_) => "."@,
            PointSegVarView::Pop(_) => ".."@,
            PointSegVarView::Var(var) => "${"@ + var.name + "}"@,
        }
    }

    /// The segment as one that holds no variable, or why it is none.
    pub open spec fn as_ctx(self) -> Result<PointSegCtxView, SpaceErrView> {
        match self {
            PointSegVarView::Root => Ok(PointSegCtxView::Root),
            PointSegVarView::Space(space) => Ok(PointSegCtxView::Space(space)),
            PointSegVarView::Base(base) => Ok(PointSegCtxView::Base(base)),
            PointSegVarView::FilesystemRootDir => Ok(PointSegCtxView::FilesystemRootDir),
            PointSegVarView::Dir(dir) => Ok(PointSegCtxView::Dir(dir)),
            PointSegVarView::File(file) => Ok(PointSegCtxView::File(file)),
            PointSegVarView::Version(version) => Ok(PointSegCtxView::Version(version)),
            PointSegVarView::Working(_) => Err(
                SpaceErrView::ParseErrs("working point not available in this context"@),
            ),
            PointSegVarView::Pop(_) => Err(
                SpaceErrView::ParseErrs("point pop not available in this context"@),
            ),
            PointSegVarView::Var(_) => Err(
                SpaceErrView::ParseErrs("variable substitution not available in this context"@),
            ),
        }
    }
}

impl PointSegQuery for PointSegCtx {
    open spec fn spec_kind(&self) -> PointSegKind {
        self@.kind()
    }

    fn kind(&self) -> (r: PointSegKind) {
        match self {
            PointSegCtx::Root => PointSegKind::Root,
            PointSegCtx::Space(_) => PointSegKind::Space,
            PointSegCtx::Base(_) => PointSegKind::Base,
            PointSegCtx::FilesystemRootDir => PointSegKind::FilesystemRootDir,
            PointSegCtx::Dir(_) => PointSegKind::Dir,
            PointSegCtx::File(_) => PointSegKind::File,
            PointSegCtx::Version(_) => PointSegKind::Version,
            PointSegCtx::Pop(_) => PointSegKind::Pop,
            PointSegCtx::Working(_) => PointSegKind::Working,
        }
    }

    fn is_filesystem_root(&self) -> (r: bool) {
        match self {
            PointSegCtx::FilesystemRootDir => true,
            _ => false,
        }
    }
}

impl PointSegQuery for PointSegVar {
    open spec fn spec_kind(&self) -> PointSegKind {
        self@.kind()
    }

    fn kind(&self) -> (r: PointSegKind) {
        match self {
            PointSegVar::Root => PointSegKind::Root,
            PointSegVar::Space(_) => PointSegKind::Space,
            PointSegVar::Base(_) => PointSegKind::Base,
            PointSegVar::FilesystemRootDir => PointSegKind::FilesystemRootDir,
            PointSegVar::Dir(_) => PointSegKind::Dir,
            PointSegVar::File(_) => PointSegKind::File,
            PointSegVar::Version(_) => PointSegKind::Version,
            PointSegVar::Pop(_) => PointSegKind::Pop,
            PointSegVar::Working(_) => PointSegKind::Working,
            PointSegVar::Var(_) => PointSegKind::Var,
        }
    }

    fn is_filesystem_root(&self) -> (r: bool) {
        match self {
            PointSegVar::FilesystemRootDir => true,
            _ => false,
        }
    }
}

impl Text for PointSegCtx {
    open spec fn text(&self) -> Seq<char> {
        self@.text()
    }

    fn to_string(&self) -> (r: String) {
        match self {
            PointSegCtx::Root => String::from_str(""),
            PointSegCtx::Space(space) => space.clone(),
            PointSegCtx::Base(base) => base.clone(),
            PointSegCtx::FilesystemRootDir => String::from_str("/"),
            PointSegCtx::Dir(dir) => dir.clone(),
            PointSegCtx::File(file) => file.clone(),
            PointSegCtx::Version(version) => version.to_string(),
            PointSegCtx::Working(_) => String::from_str("."),
            PointSegCtx::Pop(_) => String::from_str(".."),
        }
    }
}

impl Text for PointSegVar {
    open spec fn text(&self) -> Seq<char> {
        self@.text()
    }

    fn to_string(&self) -> (r: String) {
        match self {
            PointSegVar::Root => String::from_str(""),
            PointSegVar::Space(space) => space.clone(),
            PointSegVar::Base(base) => base.clone(),
            PointSegVar::FilesystemRootDir => String::from_str("/"),
            PointSegVar::Dir(dir) => dir.clone(),
            PointSegVar::File(file) => file.clone(),
            PointSegVar::Version(version) => version.to_string(),
            PointSegVar::Working(_) => String::from_str("."),
            PointSegVar::Pop(_) => String::from_str(".."),
            PointSegVar::Var(var) => {
                let mut s = String::from_str("${");
                s.append(var.name.as_str());
                s.append("}");
                s
            },
        }
    }
}

impl PointSegVar {
    /// Whether the segment stands for itself.
    pub fn is_normalized(&self) -> (r: bool)
        ensures
            r == self@.kind().normalized(),
    {
        self.kind().is_normalized()
    }

    /// Whether the segment can stand in a file system.
    pub fn is_filesystem_seg(&self) -> (r: bool)
        ensures
            r == self@.kind().filesystem_seg(),
    {
        self.kind().is_filesystem_seg()
    }

    /// The segment as one that holds no variable. A variable is none, and
    /// neither is a segment that refers to the working point.
    pub fn try_into(self) -> (r: Result<PointSegCtx, SpaceErr>)
        ensures
            match self@.as_ctx() {
                Ok(segment) => r matches Ok(found) && found@ == segment,
                Err(error) => r matches Err(found) && found@ == error,
            },
    {
        match self {
            PointSegVar::Root => Ok(PointSegCtx::Root),
            PointSegVar::Space(space) => Ok(PointSegCtx::Space(space)),
            PointSegVar::Base(base) => Ok(PointSegCtx::Base(base)),
            PointSegVar::FilesystemRootDir => Ok(PointSegCtx::FilesystemRootDir),
            PointSegVar::Dir(dir) => Ok(PointSegCtx::Dir(dir)),
            PointSegVar::File(file) => Ok(PointSegCtx::File(file)),
            PointSegVar::Version(version) => Ok(PointSegCtx::Version(version)),
            PointSegVar::Working(_) => Err(
                SpaceErr::ParseErrs(String::from_str("working point not available in this context")),
            ),
            PointSegVar::Pop(_) => Err(
                SpaceErr::ParseErrs(String::from_str("point pop not available in this context")),
            ),
            PointSegVar::Var(_) => Err(
                SpaceErr::ParseErrs(
                    String::from_str("variable substitution not available in this context"),
                ),
            ),
        }
    }
}

impl PointSegCtx {
    /// Whether the segment stands for itself.
    pub fn is_normalized(&self) -> (r: bool)
        ensures
            r == self@.kind().normalized(),
    {
        self.kind().is_normalized()
    }

    /// Whether the segment can stand in a file system.
    pub fn is_filesystem_seg(&self) -> (r: bool)
        ensures
            r == self@.kind().filesystem_seg(),
    {
        self.kind().is_filesystem_seg()
    }

    /// The same segment as one that may also be a variable.
    pub fn into(self) -> (r: PointSegVar)
        ensures
            r@ == self@.as_var(),
    {
        match self {
            PointSegCtx::Root => PointSegVar::Root,
            PointSegCtx::Space(space) => PointSegVar::Space(space),
            PointSegCtx::Base(base) => PointSegVar::Base(base),
            PointSegCtx::FilesystemRootDir => PointSegVar::FilesystemRootDir,
            PointSegCtx::Dir(dir) => PointSegVar::Dir(dir),
            PointSegCtx::File(file) => PointSegVar::File(file),
            PointSegCtx::Version(version) => PointSegVar::Version(version),
            PointSegCtx::Working(trace) => PointSegVar::Working(trace),
            PointSegCtx::Pop(trace) => PointSegVar::Pop(trace),
        }
    }

    /// The segment as one that stands for itself. A segment that refers to
    /// the working point is none.
    pub fn try_into(self) -> (r: Result<PointSeg, SpaceErr>)
        ensures
            match self@.as_seg() {
                Ok(segment) => r matches Ok(found) && found@ == segment,
                Err(error) => r matches Err(found) && found@ == error,
            },
    {
        match self {
            PointSegCtx::Root => Ok(PointSeg::Root),
            PointSegCtx::Space(space) => Ok(PointSeg::Space(space)),
            PointSegCtx::Base(base) => Ok(PointSeg::Base(base)),
            PointSegCtx::FilesystemRootDir => Ok(PointSeg::FilesystemRootDir),
            PointSegCtx::Dir(dir) => Ok(PointSeg::Dir(dir)),
            PointSegCtx::File(file) => Ok(PointSeg::File(file)),
            PointSegCtx::Version(version) => Ok(PointSeg::Version(version)),
            PointSegCtx::Working(_) => Err(
                SpaceErr::ParseErrs(String::from_str("working point not available in this context")),
            ),
            PointSegCtx::Pop(_) => Err(
                SpaceErr::ParseErrs(String::from_str("point pop not available in this context")),
            ),
        }
    }
}

impl PointSeg {
    /// The same segment as one that may refer to the working point.
    pub fn into(self) -> (r: PointSegCtx)
        ensures
            r@ == self@.as_ctx(),
    {
        match self {
            PointSeg::Root => PointSegCtx::Root,
            PointSeg::Space(space) => PointSegCtx::Space(space),
            PointSeg::Base(base) => PointSegCtx::Base(base),
            PointSeg::FilesystemRootDir => PointSegCtx::FilesystemRootDir,
            PointSeg::Dir(dir) => PointSegCtx::Dir(dir),
            PointSeg::File(file) => PointSegCtx::File(file),
            PointSeg::Version(version) => PointSegCtx::Version(version),
        }
    }
}

/// The value of the first variable of the given name, if there is one.
pub open spec fn bound_value(vars: Seq<BindingView>, name: Seq<char>) -> Option<Seq<char>>
    decreases vars.len(),
{
    if vars.len() == 0 {
        None
    } else if vars[0].name == name {
        Some(vars[0].value)
    } else {
        bound_value(vars.drop_first(), name)
    }
}

impl EnvView {
    /// The value of the variable `name`, or why it has none.
    pub open spec fn val(self, name: Seq<char>) -> Result<Seq<char>, ResolverErr> {
        match self.vars {
            None => Err(ResolverErr::NotAvailable),
            Some(vars) => match bound_value(vars, name) {
                Some(value) => Ok(value),
                None => Err(ResolverErr::NotFound),
            },
        }
    }
}

impl Env {
    /// Nothing to resolve against: no working point, no variables.
    pub fn empty() -> (r: Self)
        ensures
            r@ == (EnvView { point: None, vars: None }),
    {
        Env { point: None, vars: None }
    }

    /// The working point `point`, and no variables.
    pub fn new(point: Point) -> (r: Self)
        ensures
            r@ == (EnvView { point: Some(point@), vars: None }),
    {
        Env { point: Some(point), vars: None }
    }

    /// The value of the variable `name`.
    pub fn val(&self, name: &str) -> (r: Result<String, ResolverErr>)
        ensures
            match self@.val(name@) {
                Ok(value) => r matches Ok(found) && found@ == value,
                Err(error) => r == Err::<String, ResolverErr>(error),
            },
    {
        match &self.vars {
            None => Err(ResolverErr::NotAvailable),
            Some(vars) => {
                let ghost all = vars.deep_view();
                assert(self@.vars == Some(all));
                let mut i: usize = 0;
                assert(all.skip(0) =~= all);
                while i < vars.len()
                    invariant
                        i <= vars.len(),
                        all == vars.deep_view(),
                        self@.vars == Some(all),
                        bound_value(all.skip(i as int), name@) == bound_value(all, name@),
                    decreases vars.len() - i,
                {
                    assert(all.skip(i as int)[0] == vars[i as int]@);
                    assert(all.skip(i as int).drop_first() =~= all.skip(i + 1));
                    if same_text(vars[i].name.as_str(), name) {
                        assert(bound_value(all.skip(i as int), name@) == Some(vars[i as int]@.value));
                        return Ok(vars[i].value.clone());
                    }
                    i += 1;
                }
                Err(ResolverErr::NotFound)
            },
        }
    }

    /// The working point, or the failure that there is none.
    pub fn point_or(&self) -> (r: Result<Point, SpaceErr>)
        ensures
            match self@.point {
                Some(point) => r matches Ok(found) && found@ == point,
                None => r matches Err(error) && error@ == SpaceErrView::ParseErrs(
                    "working point is not available in this context"@,
                ),
            },
    {
        match &self.point {
            Some(point) => Ok(point.clone()),
            None => Err(
                SpaceErr::ParseErrs(
                    String::from_str("working point is not available in this context"),
                ),
            ),
        }
    }
}

/// The first `n` segments as segments that stand for themselves, or the
/// reason why the first of them that does not is none.
pub open spec fn collapsed_ctx(segments: Seq<PointSegCtxView>, n: int) -> Result<
    Seq<PointSegView>,
    SpaceErrView,
>
    decreases n,
{
    if n <= 0 || n > segments.len() {
        Ok(Seq::empty())
    } else {
        match collapsed_ctx(segments, n - 1) {
            Ok(before) => match segments[n - 1].as_seg() {
                Ok(segment) => Ok(before.push(segment)),
                Err(error) => Err(error),
            },
            Err(error) => Err(error),
        }
    }
}

/// The first `n` segments as segments that hold no variable, or the reason
/// why the first of them that does is none.
pub open spec fn collapsed_var(segments: Seq<PointSegVarView>, n: int) -> Result<
    Seq<PointSegCtxView>,
    SpaceErrView,
>
    decreases n,
{
    if n <= 0 || n > segments.len() {
        Ok(Seq::empty())
    } else {
        match collapsed_var(segments, n - 1) {
            Ok(before) => match segments[n - 1].as_ctx() {
                Ok(segment) => Ok(before.push(segment)),
                Err(error) => Err(error),
            },
            Err(error) => Err(error),
        }
    }
}

/// The point as one whose segments all stand for themselves, or why it is
/// none.
pub open spec fn collapsed_point(point: PointCtxView) -> Result<PointView, SpaceErrView> {
    match collapsed_ctx(point.segments, point.segments.len() as int) {
        Ok(segments) => Ok(PointDefView { route: point.route, segments }),
        Err(error) => Err(error),
    }
}

/// The point as one without variables, or why it is none.
pub open spec fn collapsed_point_var(point: PointVarView) -> Result<PointCtxView, SpaceErrView> {
    match collapsed_route(point.route) {
        Ok(route) => match collapsed_var(point.segments, point.segments.len() as int) {
            Ok(segments) => Ok(PointDefView { route, segments }),
            Err(error) => Err(error),
        },
        Err(error) => Err(error),
    }
}

/// What pushing `segment` onto a point comes to: see [`PointDef::push`].
pub open spec fn pushed_point(point: PointView, segment: Seq<char>) -> Result<
    PointView,
    SpaceErrView,
> {
    match pushed_text_of(point, segment) {
        Some(text) => match point_of(text) {
            Some(read) => Ok(PointDefView { route: point.route, segments: read.segments }),
            None => Err(SpaceErrView::ParseErrs("Point"@)),
        },
        None => Err(
            SpaceErrView::Status { status: 500, message: "cannot append to a file"@ },
        ),
    }
}

/// The working point of `env`, or the failure with the given message.
pub open spec fn working_point(env: EnvView, message: Seq<char>) -> Result<PointView, SpaceErrView> {
    match env.point {
        Some(point) => Ok(point),
        None => Err(SpaceErrView::ParseErrs(message)),
    }
}

/// The point without its last segment, or the failure that there is no
/// segment left to take away.
pub open spec fn popped_point(point: PointView, env: EnvView) -> Result<PointView, SpaceErrView> {
    if point.segments.len() == 0 {
        Err(
            SpaceErrView::ParseErrs(
                "Too many point pops. working point was: '"@ + (match env.point {
                    Some(working) => point_text(working),
                    None => Seq::empty(),
                }) + "'"@,
            ),
        )
    } else {
        Ok(PointDefView { segments: point.segments.drop_last(), ..point })
    }
}

/// What one segment makes of the point that the segments before it have
/// come to. The working point takes the place of the point, but only in one
/// of the first two segments; the way up takes the last segment away, in one
/// of the first two segments from the working point; every other segment is
/// pushed.
pub open spec fn resolved_step(
    segment: PointSegCtxView,
    index: int,
    point: PointView,
    env: EnvView,
) -> Result<PointView, SpaceErrView> {
    match segment {
        PointSegCtxView::Working(_) => if index > 1 {
            Err(
                SpaceErrView::ParseErrs(
                    "working point can only be referenced in the first point segment"@,
                ),
            )
        } else {
            working_point(env, "working point is not available in this context"@)
        },
        PointSegCtxView::Pop(_) => if index <= 1 {
            match working_point(
                env,
                "cannot pop because working point is not available in this context"@,
            ) {
                Ok(working) => popped_point(working, env),
                Err(error) => Err(error),
            }
        } else {
            popped_point(point, env)
        },
        PointSegCtxView::Root => Ok(point),
        _ => pushed_point(point, segment.text()),
    }
}

/// What the segments from `index` on make of `point`.
pub open spec fn resolved_from(
    segments: Seq<PointSegCtxView>,
    index: int,
    point: PointView,
    env: EnvView,
) -> Result<PointView, SpaceErrView>
    decreases segments.len() - index,
{
    if index < 0 || index >= segments.len() {
        Ok(point)
    } else {
        match resolved_step(segments[index], index, point, env) {
            Ok(next) => resolved_from(segments, index + 1, next, env),
            Err(error) => Err(error),
        }
    }
}

/// The point that `point` stands for against `env`: its segments are
/// taken one after the other, beginning at the root of its route.
pub open spec fn resolved_point(point: PointCtxView, env: EnvView) -> Result<
    PointView,
    SpaceErrView,
> {
    match resolved_from(
        point.segments,
        0,
        PointDefView { route: point.route, segments: Seq::empty() },
        env,
    ) {
        Ok(resolved) => Ok(PointDefView { route: point.route, ..resolved }),
        Err(error) => Err(error),
    }
}

impl PointCtx {
    /// The point as one whose segments all stand for themselves.
    pub fn collapse(self) -> (r: Result<Point, SpaceErr>)
        ensures
            match collapsed_point(self@) {
                Ok(point) => r matches Ok(found) && found@ == point,
                Err(error) => r matches Err(found) && found@ == error,
            },
    {
        let mut segments: Vec<PointSeg> = Vec::new();
        let mut i: usize = 0;
        assert(segments.deep_view() =~= Seq::<PointSegView>::empty());
        while i < self.segments.len()
            invariant
                i <= self.segments.len(),
                collapsed_ctx(self@.segments, i as int) == Ok::<Seq<PointSegView>, SpaceErrView>(
                    segments.deep_view(),
                ),
            decreases self.segments.len() - i,
        {
            assert(self@.segments[i as int] == self.segments[i as int]@);
            let ghost before = segments.deep_view();
            match self.segments[i].clone().try_into() {
                Ok(segment) => {
                    segments.push(segment);
                    assert(segments.deep_view() =~= before.push(segment@));
                },
                Err(error) => {
                    proof {
                        lemma_collapsed_ctx_fails(
                            self@.segments,
                            i + 1,
                            self@.segments.len() as int,
                        );
                    }
                    return Err(error);
                },
            }
            i += 1;
        }
        Ok(Point { route: self.route, segments })
    }

    /// The point as one whose segments all stand for themselves.
    pub fn to_point(self) -> (r: Result<Point, SpaceErr>)
        ensures
            match collapsed_point(self@) {
                Ok(point) => r matches Ok(found) && found@ == point,
                Err(error) => r matches Err(found) && found@ == error,
            },
    {
        self.collapse()
    }

    /// The point as one whose segments all stand for themselves.
    pub fn try_into(self) -> (r: Result<Point, SpaceErr>)
        ensures
            match collapsed_point(self@) {
                Ok(point) => r matches Ok(found) && found@ == point,
                Err(error) => r matches Err(found) && found@ == error,
            },
    {
        self.collapse()
    }

    /// Whether the point ends in a directory.
    pub fn is_dir(&self) -> (r: bool)
        ensures
            r == (self@.segments.len() > 0 && self@.segments.last() is Dir),
    {
        let n = self.segments.len();
        if n == 0 {
            return false;
        }
        assert(self@.segments[n - 1] == self.segments[n - 1]@);
        self.segments[n - 1].kind().is_dir()
    }

    /// What the segment at `index` makes of `point`: see
    /// [`resolved_step`].
    fn step(segment: &PointSegCtx, index: usize, point: Point, env: &Env) -> (r: Result<
        Point,
        SpaceErr,
    >)
        ensures
            match resolved_step(segment@, index as int, point@, env@) {
                Ok(next) => r matches Ok(found) && found@ == next,
                Err(error) => r matches Err(found) && found@ == error,
            },
    {
        match segment {
            PointSegCtx::Working(_) => {
                if index > 1 {
                    return Err(
                        SpaceErr::ParseErrs(
                            String::from_str(
                                "working point can only be referenced in the first point segment",
                            ),
                        ),
                    );
                }
                env.point_or()
            },
            PointSegCtx::Pop(_) => {
                let base = if index <= 1 {
                    match &env.point {
                        Some(working) => working.clone(),
                        None => {
                            return Err(
                                SpaceErr::ParseErrs(
                                    String::from_str(
                                        "cannot pop because working point is not available in this context",
                                    ),
                                ),
                            );
                        },
                    }
                } else {
                    point
                };
                if base.segments.len() == 0 {
                    let mut message = String::from_str("Too many point pops. working point was: '");
                    match &env.point {
                        Some(working) => {
                            proof {
                                lemma_point_text(working);
                            }
                            let text = working.to_string();
                            message.append(text.as_str());
                        },
                        None => {
                            assert(message@ + Seq::<char>::empty() =~= message@);
                        },
                    }
                    message.append("'");
                    Err(SpaceErr::ParseErrs(message))
                } else {
                    Ok(base.pop())
                }
            },
            PointSegCtx::Root => Ok(point),
            PointSegCtx::FilesystemRootDir => point.push("/"),
            PointSegCtx::Space(space) => point.push(space.as_str()),
            PointSegCtx::Base(base) => point.push(base.as_str()),
            PointSegCtx::Dir(dir) => point.push(dir.as_str()),
            PointSegCtx::File(file) => point.push(file.as_str()),
            PointSegCtx::Version(version) => point.push(version.as_str()),
        }
    }

    /// The point that this point stands for against `env`: see
    /// [`resolved_point`].
    pub fn to_resolved(self, env: &Env) -> (r: Result<Point, SpaceErr>)
        ensures
            match resolved_point(self@, env@) {
                Ok(point) => r matches Ok(found) && found@ == point,
                Err(error) => r matches Err(found) && found@ == error,
            },
    {
        let mut point = Point::root_with_route(self.route.clone());
        let ghost start = point@;
        assert(start == (PointDefView {
            route: self@.route,
            segments: Seq::<PointSegView>::empty(),
        }));
        let mut i: usize = 0;
        while i < self.segments.len()
            invariant
                i <= self.segments.len(),
                start == (PointDefView {
                    route: self@.route,
                    segments: Seq::<PointSegView>::empty(),
                }),
                resolved_from(self@.segments, i as int, point@, env@) == resolved_from(
                    self@.segments,
                    0,
                    start,
                    env@,
                ),
            decreases self.segments.len() - i,
        {
            assert(self@.segments[i as int] == self.segments[i as int]@);
            let ghost before = point@;
            match Self::step(&self.segments[i], i, point, env) {
                Ok(next) => {
                    point = next;
                },
                Err(error) => {
                    assert(resolved_from(self@.segments, i as int, before, env@) is Err);
                    return Err(error);
                },
            }
            i += 1;
        }
        point.route = self.route;
        Ok(point)
    }
}

/// Once a segment is none that stands for itself, the segments after it do
/// not mend it.
pub proof fn lemma_collapsed_ctx_fails(segments: Seq<PointSegCtxView>, failed: int, n: int)
    requires
        0 < failed <= n <= segments.len(),
        collapsed_ctx(segments, failed) is Err,
    ensures
        collapsed_ctx(segments, n) == collapsed_ctx(segments, failed),
    decreases n - failed,
{
    if failed < n {
        lemma_collapsed_ctx_fails(segments, failed, n - 1);
    }
}

/// Once a segment is none without a variable, the segments after it do not
/// mend it.
pub proof fn lemma_collapsed_var_fails(segments: Seq<PointSegVarView>, failed: int, n: int)
    requires
        0 < failed <= n <= segments.len(),
        collapsed_var(segments, failed) is Err,
    ensures
        collapsed_var(segments, n) == collapsed_var(segments, failed),
    decreases n - failed,
{
    if failed < n {
        lemma_collapsed_var_fails(segments, failed, n - 1);
    }
}

impl PointVar {
    /// The point as one without variables.
    pub fn collapse(self) -> (r: Result<PointCtx, SpaceErr>)
        ensures
            match collapsed_point_var(self@) {
                Ok(point) => r matches Ok(found) && found@ == point,
                Err(error) => r matches Err(found) && found@ == error,
            },
    {
        let route = match self.route.try_into() {
            Ok(route) => route,
            Err(error) => {
                return Err(error);
            },
        };
        let mut segments: Vec<PointSegCtx> = Vec::new();
        let mut i: usize = 0;
        assert(segments.deep_view() =~= Seq::<PointSegCtxView>::empty());
        while i < self.segments.len()
            invariant
                i <= self.segments.len(),
                collapsed_route(self@.route) == Ok::<RouteSegView, SpaceErrView>(route@),
                collapsed_var(self@.segments, i as int) == Ok::<
                    Seq<PointSegCtxView>,
                    SpaceErrView,
                >(segments.deep_view()),
            decreases self.segments.len() - i,
        {
            assert(self@.segments[i as int] == self.segments[i as int]@);
            let ghost before = segments.deep_view();
            match self.segments[i].clone().try_into() {
                Ok(segment) => {
                    segments.push(segment);
                    assert(segments.deep_view() =~= before.push(segment@));
                },
                Err(error) => {
                    proof {
                        lemma_collapsed_var_fails(
                            self@.segments,
                            i + 1,
                            self@.segments.len() as int,
                        );
                    }
                    return Err(error);
                },
            }
            i += 1;
        }
        Ok(PointCtx { route, segments })
    }

    /// The point as one without variables.
    pub fn to_point_ctx(self) -> (r: Result<PointCtx, SpaceErr>)
        ensures
            match collapsed_point_var(self@) {
                Ok(point) => r matches Ok(found) && found@ == point,
                Err(error) => r matches Err(found) && found@ == error,
            },
    {
        self.collapse()
    }

    /// The point as one whose segments all stand for themselves: first
    /// without variables, then without references to the working point.
    pub fn to_point(self) -> (r: Result<Point, SpaceErr>)
        ensures
            match collapsed_point_var(self@) {
                Ok(ctx) => match collapsed_point(ctx) {
                    Ok(point) => r matches Ok(found) && found@ == point,
                    Err(error) => r matches Err(found) && found@ == error,
                },
                Err(error) => r matches Err(found) && found@ == error,
            },
    {
        match self.collapse() {
            Ok(ctx) => ctx.collapse(),
            Err(error) => Err(error),
        }
    }

    /// Whether the point ends in a directory.
    pub fn is_dir(&self) -> (r: bool)
        ensures
            r == (self@.segments.len() > 0 && self@.segments.last() is Dir),
    {
        let n = self.segments.len();
        if n == 0 {
            return false;
        }
        assert(self@.segments[n - 1] == self.segments[n - 1]@);
        self.segments[n - 1].kind().is_dir()
    }
}

/// The segments as segments that may refer to the working point.
pub open spec fn all_as_ctx(segments: Seq<PointSegView>) -> Seq<PointSegCtxView> {
    Seq::new(segments.len(), |i: int| segments[i].as_ctx())
}

/// The segment that a token between colons stands for: `.` is the working
/// point, `..` the way up, and everything else what it is in a point.
pub open spec fn ctx_segment_of(token: Seq<char>, from: int, end: int) -> Option<PointSegCtxView> {
    if token == "."@ {
        Some(PointSegCtxView::Working(Trace { range_start: from as usize, range_end: end as usize }))
    } else if token == ".."@ {
        Some(PointSegCtxView::Pop(Trace { range_start: from as usize, range_end: end as usize }))
    } else {
        match mesh_segment_of(token) {
            Some(segment) => Some(segment.as_ctx()),
            None => None,
        }
    }
}

/// The segments that the text holds from `from` to its end, after the
/// first segment: as in a point, but `.` and `..` may stand between the
/// colons.
pub open spec fn ctx_segments_at(s: Seq<char>, from: int) -> Option<Seq<PointSegCtxView>>
    decreases s.len() - from,
{
    if from < 0 {
        None
    } else if from >= s.len() {
        Some(Seq::empty())
    } else if !char_at(s, from, ':') {
        None
    } else if char_at(s, from + 1, '/') {
        match file_segments_at(s, from + 2) {
            Some(others) => Some(seq![PointSegCtxView::FilesystemRootDir] + all_as_ctx(others)),
            None => None,
        }
    } else {
        let end = span_end(s, from + 1, CharClass::LowerAlphaNumericHyphenDot);
        if end <= from + 1 || end > s.len() {
            None
        } else {
            match (
                ctx_segment_of(s.subrange(from + 1, end), from + 1, end),
                ctx_segments_at(s, end),
            ) {
                (Some(segment), Some(others)) => Some(seq![segment] + others),
                _ => None,
            }
        }
    }
}

/// The first segment that the text holds at `from`, and where it ends: the
/// space, the working point or the way up.
pub open spec fn ctx_first_at(s: Seq<char>, from: int) -> Option<(PointSegCtxView, int)> {
    match word_end(s, from, CharClass::Lower, CharClass::LowerAlphaNumericHyphenDot) {
        Some(end) => Some((PointSegCtxView::Space(s.subrange(from, end)), end)),
        None => {
            let end = span_end(s, from, CharClass::LowerAlphaNumericHyphenDot);
            if 0 <= from < end <= s.len() {
                if s.subrange(from, end) == "."@ {
                    Some(
                        (
                            PointSegCtxView::Working(
                                Trace { range_start: from as usize, range_end: end as usize },
                            ),
                            end,
                        ),
                    )
                } else if s.subrange(from, end) == ".."@ {
                    Some(
                        (
                            PointSegCtxView::Pop(
                                Trace { range_start: from as usize, range_end: end as usize },
                            ),
                            end,
                        ),
                    )
                } else {
                    None
                }
            } else {
                None
            }
        },
    }
}

/// The point that the text stands for, if it stands for one: as a point is
/// written, but `.` and `..` may stand for segments.
pub open spec fn point_ctx_of(s: Seq<char>) -> Option<PointCtxView> {
    let route = route_at(s);
    if s.skip(route.1) == "ROOT"@ {
        Some(PointDefView { route: route.0, segments: Seq::empty() })
    } else {
        match ctx_first_at(s, route.1) {
            Some(first) => match ctx_segments_at(s, first.1) {
                Some(others) => Some(
                    PointDefView { route: route.0, segments: seq![first.0] + others },
                ),
                None => None,
            },
            None => None,
        }
    }
}

/// The segments as segments that may refer to the working point.
fn into_ctx(segments: Vec<PointSeg>) -> (r: Vec<PointSegCtx>)
    ensures
        r.deep_view() == all_as_ctx(segments.deep_view()),
{
    let mut converted: Vec<PointSegCtx> = Vec::new();
    let mut i: usize = 0;
    while i < segments.len()
        invariant
            i <= segments.len(),
            converted.len() == i,
            forall|j: int| 0 <= j < i ==> (#[trigger] converted[j])@ == segments[j]@.as_ctx(),
        decreases segments.len() - i,
    {
        converted.push(segments[i].clone().into());
        i += 1;
    }
    assert(converted.deep_view() =~= all_as_ctx(segments.deep_view()));
    converted
}

/// The segment that a token between colons stands for.
fn read_ctx_segment(token: String, from: usize, end: usize) -> (r: Option<PointSegCtx>)
    ensures
        r.deep_view() == ctx_segment_of(token@, from as int, end as int),
{
    if same_text(token.as_str(), ".") {
        Some(PointSegCtx::Working(Trace { range_start: from, range_end: end }))
    } else if same_text(token.as_str(), "..") {
        Some(PointSegCtx::Pop(Trace { range_start: from, range_end: end }))
    } else {
        match read_mesh_segment(token) {
            Some(segment) => Some(segment.into()),
            None => None,
        }
    }
}

/// The segments that the text holds from `from` on, after the first
/// segment.
fn read_ctx_segments(s: &str, from: usize) -> (r: Option<Vec<PointSegCtx>>)
    requires
        from <= s@.len(),
    ensures
        r.deep_view() == ctx_segments_at(s@, from as int),
    decreases s@.len() - from,
{
    if from >= char_len(s) {
        let none: Vec<PointSegCtx> = Vec::new();
        assert(none.deep_view() =~= Seq::<PointSegCtxView>::empty());
        return Some(none);
    }
    if !is_char_at(s, from, ':') {
        return None;
    }
    if is_char_at(s, from + 1, '/') {
        return match read_file_segments(s, from + 2) {
            Some(files) => {
                let mut segments = into_ctx(files);
                let ghost others = segments.deep_view();
                segments.insert(0, PointSegCtx::FilesystemRootDir);
                assert(segments.deep_view() =~= seq![PointSegCtxView::FilesystemRootDir] + others);
                Some(segments)
            },
            None => None,
        };
    }
    let end = span(s, from + 1, CharClass::LowerAlphaNumericHyphenDot);
    if end <= from + 1 {
        return None;
    }
    let segment = read_ctx_segment(slice(s, from + 1, end), from + 1, end);
    let others = read_ctx_segments(s, end);
    match (segment, others) {
        (Some(segment), Some(mut segments)) => {
            let ghost rest = segments.deep_view();
            let ghost first = segment@;
            segments.insert(0, segment);
            assert(segments.deep_view() =~= seq![first] + rest);
            Some(segments)
        },
        _ => None,
    }
}

/// The first segment that the text holds at `from`, and where it ends.
fn read_ctx_first(s: &str, from: usize) -> (r: Option<(PointSegCtx, usize)>)
    requires
        from <= s@.len(),
    ensures
        match ctx_first_at(s@, from as int) {
            Some(found) => r matches Some(got) && got.0@ == found.0 && got.1 == found.1 && from
                < got.1 <= s@.len(),
            None => r is None,
        },
{
    match word_to(s, from, CharClass::Lower, CharClass::LowerAlphaNumericHyphenDot) {
        Some(end) => Some((PointSegCtx::Space(slice(s, from, end)), end)),
        None => {
            let end = span(s, from, CharClass::LowerAlphaNumericHyphenDot);
            if end == from {
                return None;
            }
            let token = slice(s, from, end);
            if same_text(token.as_str(), ".") {
                Some((PointSegCtx::Working(Trace { range_start: from, range_end: end }), end))
            } else if same_text(token.as_str(), "..") {
                Some((PointSegCtx::Pop(Trace { range_start: from, range_end: end }), end))
            } else {
                None
            }
        },
    }
}

/// Reads a point that may refer to the working point from the whole of
/// `s`: see [`point_ctx_of`].
pub fn consume_point_ctx(s: &str) -> (r: Result<PointCtx, SpaceErr>)
    ensures
        match point_ctx_of(s@) {
            Some(point) => r matches Ok(found) && found@ == point,
            None => r matches Err(error) && error@ == SpaceErrView::ParseErrs("PointCtx"@),
        },
{
    let route = read_route(s);
    if same_text(rest(s, route.1), "ROOT") {
        let segments: Vec<PointSegCtx> = Vec::new();
        assert(segments.deep_view() =~= Seq::<PointSegCtxView>::empty());
        return Ok(PointDef { route: route.0, segments });
    }
    match read_ctx_first(s, route.1) {
        Some(first) => match read_ctx_segments(s, first.1) {
            Some(mut segments) => {
                let ghost others = segments.deep_view();
                let ghost head = first.0@;
                segments.insert(0, first.0);
                assert(segments.deep_view() =~= seq![head] + others);
                Ok(PointDef { route: route.0, segments })
            },
            None => Err(SpaceErr::ParseErrs(String::from_str("PointCtx"))),
        },
        None => Err(SpaceErr::ParseErrs(String::from_str("PointCtx"))),
    }
}

/// How far the text of a point with variables has been written out: the
/// text so far, whether the root of a file system has been passed, and what
/// is to be said of the variables that have no value.
pub ghost struct Resolving {
    pub text: Seq<char>,
    pub after_fs: bool,
    pub errs: Seq<Seq<char>>,
}

/// What is to be said of a variable without a value.
pub open spec fn unresolved(error: ResolverErr, name: Seq<char>) -> Seq<char> {
    match error {
        ResolverErr::NotAvailable => "variables not available in this context '"@ + name + "'"@,
        ResolverErr::NotFound => "variable could not be resolved '"@ + name + "'"@,
    }
}

/// The text of a route with `::` after it; the route of the place where
/// the point stands has no text.
pub open spec fn route_prefix(route: RouteSegVarView, env: EnvView) -> Resolving {
    let text = match route {
        RouteSegVarView::Var(var) => match env.val(var.name) {
            Ok(value) => value + "::"@,
            Err(_) => Seq::empty(),
        },
        RouteSegVarView::This => Seq::empty(),
        RouteSegVarView::Domain(domain) => domain + "::"@,
        RouteSegVarView::Tag(tag) => "["@ + tag + "]::"@,
        RouteSegVarView::Star(star) => "<<"@ + star + ">>::"@,
        RouteSegVarView::Global => "GLOBAL::"@,
        RouteSegVarView::Local => "LOCAL::"@,
        RouteSegVarView::Remote => "REMOTE::"@,
        RouteSegVarView::Hyper => "HYPER::"@,
    };
    let errs = match route {
        RouteSegVarView::Var(var) => match env.val(var.name) {
            Ok(_) => Seq::empty(),
            Err(error) => seq![unresolved(error, var.name)],
        },
        _ => Seq::empty(),
    };
    Resolving { text, after_fs: false, errs }
}

/// The colon that stands before a segment, unless the segment is one of the
/// first `free` of its point or stands in a file system.
pub open spec fn colon_before(state: Resolving, index: int, free: int) -> Seq<char> {
    if index > free && !state.after_fs {
        ":"@
    } else {
        Seq::empty()
    }
}

/// The text after one more segment was written out: a variable is replaced
/// by its value, the root of a file system is written `:/`, and every other
/// segment as it is.
pub open spec fn resolving_step(
    state: Resolving,
    segment: PointSegVarView,
    index: int,
    env: EnvView,
) -> Resolving {
    match segment {
        PointSegVarView::Var(var) => match env.val(var.name) {
            Ok(value) => Resolving {
                text: state.text + colon_before(state, index, 1) + value,
                ..state
            },
            Err(error) => Resolving {
                errs: state.errs.push(unresolved(error, var.name)),
                ..state
            },
        },
        PointSegVarView::FilesystemRootDir => Resolving {
            text: state.text + ":/"@,
            after_fs: true,
            ..state
        },
        _ => Resolving {
            text: state.text + colon_before(state, index, 0) + segment.text(),
            ..state
        },
    }
}

/// The text after the first `n` segments were written out.
pub open spec fn resolving(
    segments: Seq<PointSegVarView>,
    n: int,
    start: Resolving,
    env: EnvView,
) -> Resolving
    decreases n,
{
    if n <= 0 || n > segments.len() {
        start
    } else {
        resolving_step(resolving(segments, n - 1, start, env), segments[n - 1], n - 1, env)
    }
}

/// The first `n` lines, one after the other.
pub open spec fn folded(lines: Seq<Seq<char>>, n: int) -> Seq<char>
    decreases n,
{
    if n <= 0 || n > lines.len() {
        Seq::empty()
    } else if n == 1 {
        lines[0]
    } else {
        folded(lines, n - 1) + "\n"@ + lines[n - 1]
    }
}

/// What reading the text as a point that may refer to the working point
/// comes to.
pub open spec fn read_point_ctx(text: Seq<char>) -> Result<PointCtxView, SpaceErrView> {
    match point_ctx_of(text) {
        Some(point) => Ok(point),
        None => Err(SpaceErrView::ParseErrs("PointCtx"@)),
    }
}

/// The point without variables that `point` stands for against `env`: the
/// text of the point is written out with the values of its variables and
/// read again. A point without segments is the root, whatever its route
/// says. Variables without a value are a failure that names them all.
pub open spec fn resolved_point_var(point: PointVarView, env: EnvView) -> Result<
    PointCtxView,
    SpaceErrView,
> {
    let start = route_prefix(point.route, env);
    if point.segments.len() == 0 {
        read_point_ctx(start.text + "ROOT"@)
    } else {
        let end = resolving(point.segments, point.segments.len() as int, start, env);
        if end.errs.len() > 0 {
            Err(SpaceErrView::ParseErrs(folded(end.errs, end.errs.len() as int)))
        } else {
            read_point_ctx(end.text)
        }
    }
}

/// The lines, one after the other.
fn fold(lines: &Vec<String>) -> (r: String)
    ensures
        r@ == folded(lines.deep_view(), lines.len() as int),
{
    let mut text = String::new();
    let mut i: usize = 0;
    assert(text@ =~= folded(lines.deep_view(), 0));
    while i < lines.len()
        invariant
            i <= lines.len(),
            text@ == folded(lines.deep_view(), i as int),
        decreases lines.len() - i,
    {
        assert(lines.deep_view()[i as int] == lines[i as int]@);
        if i > 0 {
            text.append("\n");
        }
        text.append(lines[i].as_str());
        proof {
            if i == 0 {
                assert(text@ =~= folded(lines.deep_view(), 1));
            }
        }
        i += 1;
    }
    text
}

/// What is to be said of a variable without a value.
fn unresolved_message(error: ResolverErr, name: &str) -> (r: String)
    ensures
        r@ == unresolved(error, name@),
{
    let mut message = match error {
        ResolverErr::NotAvailable => String::from_str("variables not available in this context '"),
        ResolverErr::NotFound => String::from_str("variable could not be resolved '"),
    };
    message.append(name);
    message.append("'");
    message
}

impl PointVar {
    /// Writes the route out, with `::` after it.
    fn write_route(&self, env: &Env, text: &mut String, errs: &mut Vec<String>)
        requires
            old(text)@ == Seq::<char>::empty(),
            old(errs).deep_view() == Seq::<Seq<char>>::empty(),
        ensures
            final(text)@ == route_prefix(self@.route, env@).text,
            final(errs).deep_view() == route_prefix(self@.route, env@).errs,
    {
        match &self.route {
            RouteSegVar::Var(var) => match env.val(var.name.as_str()) {
                Ok(value) => {
                    text.append(value.as_str());
                    text.append("::");
                    assert(text@ =~= value@ + "::"@);
                },
                Err(error) => {
                    let message = unresolved_message(error, var.name.as_str());
                    errs.push(message);
                    assert(errs.deep_view() =~= seq![unresolved(error, var.name@)]);
                },
            },
            RouteSegVar::This => {},
            RouteSegVar::Domain(domain) => {
                text.append(domain.as_str());
                text.append("::");
                assert(text@ =~= domain@ + "::"@);
            },
            RouteSegVar::Tag(tag) => {
                text.append("[");
                text.append(tag.as_str());
                text.append("]::");
                assert(text@ =~= "["@ + tag@ + "]::"@);
            },
            RouteSegVar::Star(star) => {
                text.append("<<");
                text.append(star.as_str());
                text.append(">>::");
                assert(text@ =~= "<<"@ + star@ + ">>::"@);
            },
            RouteSegVar::Global => {
                text.append("GLOBAL::");
                assert(text@ =~= "GLOBAL::"@);
            },
            RouteSegVar::Local => {
                text.append("LOCAL::");
                assert(text@ =~= "LOCAL::"@);
            },
            RouteSegVar::Remote => {
                text.append("REMOTE::");
                assert(text@ =~= "REMOTE::"@);
            },
            RouteSegVar::Hyper => {
                text.append("HYPER::");
                assert(text@ =~= "HYPER::"@);
            },
        }
    }

    /// Writes one more segment out: see [`resolving_step`].
    fn write_segment(
        segment: &PointSegVar,
        index: usize,
        env: &Env,
        text: &mut String,
        after_fs: &mut bool,
        errs: &mut Vec<String>,
    )
        ensures
            (Resolving {
                text: final(text)@,
                after_fs: *final(after_fs),
                errs: final(errs).deep_view(),
            }) == resolving_step(
                Resolving { text: old(text)@, after_fs: *old(after_fs), errs: old(errs).deep_view() },
                segment@,
                index as int,
                env@,
            ),
    {
        match segment {
            PointSegVar::Var(var) => match env.val(var.name.as_str()) {
                Ok(value) => {
                    if index > 1 && !*after_fs {
                        text.append(":");
                    }
                    text.append(value.as_str());
                    assert(text@ =~= old(text)@ + colon_before(
                        Resolving {
                            text: old(text)@,
                            after_fs: *old(after_fs),
                            errs: old(errs).deep_view(),
                        },
                        index as int,
                        1,
                    ) + value@);
                },
                Err(error) => {
                    let message = unresolved_message(error, var.name.as_str());
                    errs.push(message);
                    assert(errs.deep_view() =~= old(errs).deep_view().push(
                        unresolved(error, var.name@),
                    ));
                },
            },
            PointSegVar::FilesystemRootDir => {
                *after_fs = true;
                text.append(":/");
            },
            _ => {
                if index > 0 && !*after_fs {
                    text.append(":");
                }
                let written = segment.to_string();
                text.append(written.as_str());
                assert(text@ =~= old(text)@ + colon_before(
                    Resolving {
                        text: old(text)@,
                        after_fs: *old(after_fs),
                        errs: old(errs).deep_view(),
                    },
                    index as int,
                    0,
                ) + segment@.text());
            },
        }
    }

    /// The point without variables that this point stands for against
    /// `env`: see [`resolved_point_var`].
    pub fn to_resolved(self, env: &Env) -> (r: Result<PointCtx, SpaceErr>)
        ensures
            match resolved_point_var(self@, env@) {
                Ok(point) => r matches Ok(found) && found@ == point,
                Err(error) => r matches Err(found) && found@ == error,
            },
    {
        let mut rtn = String::new();
        let mut after_fs = false;
        let mut errs: Vec<String> = Vec::new();
        assert(errs.deep_view() =~= Seq::<Seq<char>>::empty());
        self.write_route(env, &mut rtn, &mut errs);
        let ghost start = route_prefix(self@.route, env@);
        if self.segments.len() == 0 {
            rtn.append("ROOT");
            return consume_point_ctx(rtn.as_str());
        }
        let mut i: usize = 0;
        while i < self.segments.len()
            invariant
                i <= self.segments.len(),
                start == route_prefix(self@.route, env@),
                (Resolving { text: rtn@, after_fs, errs: errs.deep_view() }) == resolving(
                    self@.segments,
                    i as int,
                    start,
                    env@,
                ),
            decreases self.segments.len() - i,
        {
            assert(self@.segments[i as int] == self.segments[i as int]@);
            Self::write_segment(&self.segments[i], i, env, &mut rtn, &mut after_fs, &mut errs);
            i += 1;
        }
        if errs.len() > 0 {
            return Err(SpaceErr::ParseErrs(fold(&errs)));
        }
        consume_point_ctx(rtn.as_str())
    }

    /// The address that this point stands for against `env`: first the
    /// variables are replaced by their values, then the references to the
    /// working point are followed.
    pub fn to_resolved_point(self, env: &Env) -> (r: Result<Point, SpaceErr>)
        ensures
            match resolved_point_var(self@, env@) {
                Ok(ctx) => match resolved_point(ctx, env@) {
                    Ok(point) => r matches Ok(found) && found@ == point,
                    Err(error) => r matches Err(found) && found@ == error,
                },
                Err(error) => r matches Err(found) && found@ == error,
            },
    {
        match self.to_resolved(env) {
            Ok(ctx) => ctx.to_resolved(env),
            Err(error) => Err(error),
        }
    }
}

} // verus!
