//! Identity of a star in the mesh.

use vstd::prelude::*;
use crate::frame::{Frame, FrameView};
use crate::lane::{
    ConnectorController, ConnectorControllerView, ProtoLaneEndpoint, ProtoLaneEndpointView,
};
use crate::text::{append_decimal, append_path, decimal_text, path_text};

verus! {

/// The mathematical value of a [`StarKey`]: the path of its subgraph and its
/// index inside that subgraph.
pub ghost struct StarKeyView {
    pub subgraph: Seq<u16>,
    pub index: u16,
}

/// Identifier of a mesh node. The subgraph path places the star in the
/// hierarchy of the constellation; the index tells stars of one subgraph apart.
#[derive(Debug, PartialEq, Eq, Hash, PartialOrd, Ord)]
pub struct StarKey {
    pub subgraph: Vec<u16>,
    pub index: u16,
}

impl View for StarKey {
    type V = StarKeyView;

    open spec fn view(&self) -> StarKeyView {
        StarKeyView { subgraph: self.subgraph@, index: self.index }
    }
}

impl DeepView for StarKey {
    type V = StarKeyView;

    open spec fn deep_view(&self) -> StarKeyView {
        self@
    }
}

impl Clone for StarKey {
    fn clone(&self) -> (r: Self)
        ensures
            r@ == self@,
    {
        StarKey { subgraph: self.subgraph.clone(), index: self.index }
    }
}

impl StarKey {
    /// The view of the central star: the empty subgraph, index 0.
    pub open spec fn central_view() -> StarKeyView {
        StarKeyView { subgraph: Seq::empty(), index: 0 }
    }

    /// The key of the central star.
    pub fn central() -> (r: Self)
        ensures
            r@ == Self::central_view(),
    {
        StarKey { subgraph: Vec::new(), index: 0 }
    }

    /// A star in the root subgraph.
    pub fn new(index: u16) -> (r: Self)
        ensures
            r@ == (StarKeyView { subgraph: Seq::empty(), index }),
    {
        StarKey { subgraph: Vec::new(), index }
    }

    /// A star at `index` inside the subgraph reached by `subgraph`.
    pub fn new_with_subgraph(subgraph: Vec<u16>, index: u16) -> (r: Self)
        ensures
            r@ == (StarKeyView { subgraph: subgraph@, index }),
    {
        StarKey { subgraph, index }
    }

    /// The text of a key: the subgraph path, a hyphen, the index.
    pub open spec fn text(key: StarKeyView) -> Seq<char> {
        path_text(key.subgraph) + "-"@ + decimal_text(key.index as nat)
    }

    /// The subgraph path, a hyphen, the index.
    pub fn to_string(&self) -> (r: String)
        ensures
            r@ == Self::text(self@),
    {
        let mut s = String::new();
        append_path(&mut s, &self.subgraph);
        s.append("-");
        append_decimal(&mut s, self.index as u64);
        assert(s@ =~= Self::text(self@));
        s
    }

    /// Whether two keys name the same star.
    pub fn same(&self, other: &StarKey) -> (r: bool)
        ensures
            r == (self@ == other@),
    {
        if self.index != other.index || self.subgraph.len() != other.subgraph.len() {
            return false;
        }
        let mut i: usize = 0;
        while i < self.subgraph.len()
            invariant
                i <= self.subgraph.len(),
                self.subgraph.len() == other.subgraph.len(),
                forall|j: int| 0 <= j < i ==> self.subgraph@[j] == other.subgraph@[j],
            decreases self.subgraph.len() - i,
        {
            if self.subgraph[i] != other.subgraph[i] {
                return false;
            }
            i += 1;
        }
        assert(self.subgraph@ =~= other.subgraph@);
        true
    }

    /// Whether this is the key of the central star.
    pub fn is_central(&self) -> (r: bool)
        ensures
            r == (self@ == Self::central_view()),
    {
        let r = self.index == 0 && self.subgraph.len() == 0;
        assert(r ==> self.subgraph@ =~= Seq::<u16>::empty());
        r
    }
}
/// The role of a star in the constellation.
#[derive(Clone, Copy, Debug, PartialEq, Eq, Hash, Structural)]
pub enum StarKind {
    Central,
    Mesh,
    Supervisor,
    Server,
    Gateway,
    Link,
    Client,
}

impl StarKind {
    /// Whether the star is the root that all others measure their distance to.
    pub fn is_central(&self) -> (r: bool)
        ensures
            r == (*self == StarKind::Central),
    {
        match self {
            StarKind::Central => true,
            _ => false,
        }
    }
}

/// The mathematical value of a [`ShortestPathStarKey`].
pub ghost struct ShortestPathStarKeyView {
    pub to: StarKeyView,
    pub next_lane: StarKeyView,
    pub hops: usize,
}

/// The neighbour through which a star is reached in the fewest hops.
#[derive(Debug, PartialEq, Eq, Hash)]
pub struct ShortestPathStarKey {
    pub to: StarKey,
    pub next_lane: StarKey,
    pub hops: usize,
}

impl View for ShortestPathStarKey {
    type V = ShortestPathStarKeyView;

    open spec fn view(&self) -> ShortestPathStarKeyView {
        ShortestPathStarKeyView {
            to: self.to@,
            next_lane: self.next_lane@,
            hops: self.hops,
        }
    }
}

impl DeepView for ShortestPathStarKey {
    type V = ShortestPathStarKeyView;

    open spec fn deep_view(&self) -> ShortestPathStarKeyView {
        self@
    }
}

impl Clone for ShortestPathStarKey {
    fn clone(&self) -> (r: Self)
        ensures
            r@ == self@,
    {
        let r = ShortestPathStarKey {
            to: self.to.clone(),
            next_lane: self.next_lane.clone(),
            hops: self.hops,
        };
        r
    }
}

/// The mathematical value of a [`FrameTimeoutInner`].
pub ghost struct FrameTimeoutInnerView {
    pub frame: FrameView,
    pub retries: usize,
}

/// An expected answer did not come in time: the frame that went unanswered and
/// the number of times this has happened to it.
#[derive(Debug, PartialEq, Eq, Hash)]
pub struct FrameTimeoutInner {
    pub frame: Frame,
    pub retries: usize,
}

impl View for FrameTimeoutInner {
    type V = FrameTimeoutInnerView;

    open spec fn view(&self) -> FrameTimeoutInnerView {
        FrameTimeoutInnerView {
            frame: self.frame@,
            retries: self.retries,
        }
    }
}

impl DeepView for FrameTimeoutInner {
    type V = FrameTimeoutInnerView;

    open spec fn deep_view(&self) -> FrameTimeoutInnerView {
        self@
    }
}

impl Clone for FrameTimeoutInner {
    fn clone(&self) -> (r: Self)
        ensures
            r@ == self@,
    {
        let r = FrameTimeoutInner {
            frame: self.frame.clone(),
            retries: self.retries,
        };
        r
    }
}

/// The mathematical value of a [`StarCommand`].
pub ghost enum StarCommandView {
    AddLane(ProtoLaneEndpointView),
    AddConnectorController(ConnectorControllerView),
    Frame(FrameView),
    FrameTimeout(FrameTimeoutInnerView),
    Init,
}

/// What a node is told to do.
#[derive(Debug, PartialEq, Eq)]
pub enum StarCommand {
    /// Take this lane to a neighbour.
    AddLane(ProtoLaneEndpoint),
    /// Keep the handle of this connector.
    AddConnectorController(ConnectorController),
    /// A frame arrived on a lane.
    Frame(Frame),
    /// A frame that expected an answer got none in time.
    FrameTimeout(FrameTimeoutInner),
    /// Begin the bootstrap.
    Init,
}

impl View for StarCommand {
    type V = StarCommandView;

    open spec fn view(&self) -> StarCommandView {
        match self {
            StarCommand::AddLane(a) => StarCommandView::AddLane(a@),
            StarCommand::AddConnectorController(a) => StarCommandView::AddConnectorController(a@),
            StarCommand::Frame(a) => StarCommandView::Frame(a@),
            StarCommand::FrameTimeout(a) => StarCommandView::FrameTimeout(a@),
            StarCommand::Init => StarCommandView::Init,
        }
    }
}

impl DeepView for StarCommand {
    type V = StarCommandView;

    open spec fn deep_view(&self) -> StarCommandView {
        self@
    }
}

} // verus!
