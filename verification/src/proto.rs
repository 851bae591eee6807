//! Before a star is a star: the handshake that makes a tunnel, the tracker
//! of unanswered frames, and the node that finds the central star and its own
//! place in the mesh.

use vstd::prelude::*;
use crate::channel::{Channel, ChannelView, Received};
use crate::cache::entries_after_put;
use crate::error::{Error, MeshError};
use crate::frame::{
    Frame, FrameView, ProtoFrame, ProtoFrameView, StarMessage, StarMessagePayload,
    StarMessagePayloadView, StarMessageView,
};
use crate::id::{Id, IdSeq};
use crate::lane::{
    hops_through, key_path, paths_after_lookup, ConnectorController, ConnectorControllerView,
    LaneCommand, LaneCommandView, LaneEndpoint, ProtoLaneEndpoint, ProtoLaneEndpointView,
    HOP_CACHE_LIMIT,
    LaneEndpointView, LaneMeta, OutgoingSideView, TunnelIn, TunnelInView, TunnelOut, TunnelOutView,
    STARLANE_PROTOCOL_VERSION,
};
use crate::star::{
    FrameTimeoutInner, FrameTimeoutInnerView, ShortestPathStarKey, ShortestPathStarKeyView,
    StarCommand, StarCommandView, StarKey, StarKeyView, StarKind,
};

verus! {

/// The longest path to the central star that a node accepts or passes on.
pub const MAX_HOPS: i32 = 32;

/// The seconds that a node waits for an expected answer before it asks again.
pub const TRACKER_TIMEOUT_SECONDS: u64 = 5;

/// The mathematical value of a [`HandshakeState`].
pub ghost enum HandshakeStateView {
    Start,
    SentVersion,
    SentIdentity,
    AwaitingPeerVersion,
    AwaitingPeerIdentity,
    Established(StarKeyView),
    Failed(MeshError),
}

/// How far the handshake of a tunnel has come.
#[derive(Debug, PartialEq, Eq)]
pub enum HandshakeState {
    /// Nothing was sent yet.
    Start,
    /// The own protocol version was sent.
    SentVersion,
    /// The own identity was sent too.
    SentIdentity,
    /// The next frame must be the protocol version of the peer.
    AwaitingPeerVersion,
    /// The next frame must be the identity of the peer.
    AwaitingPeerIdentity,
    /// The peer is the given star.
    Established(StarKey),
    /// The handshake is over and there is no tunnel.
    Failed(MeshError),
}

impl View for HandshakeState {
    type V = HandshakeStateView;

    open spec fn view(&self) -> HandshakeStateView {
        match self {
            HandshakeState::Start => HandshakeStateView::Start,
            HandshakeState::SentVersion => HandshakeStateView::SentVersion,
            HandshakeState::SentIdentity => HandshakeStateView::SentIdentity,
            HandshakeState::AwaitingPeerVersion => HandshakeStateView::AwaitingPeerVersion,
            HandshakeState::AwaitingPeerIdentity => HandshakeStateView::AwaitingPeerIdentity,
            HandshakeState::Established(a) => HandshakeStateView::Established(a@),
            HandshakeState::Failed(a) => HandshakeStateView::Failed(*a),
        }
    }
}

impl DeepView for HandshakeState {
    type V = HandshakeStateView;

    open spec fn deep_view(&self) -> HandshakeStateView {
        self@
    }
}

impl Clone for HandshakeState {
    fn clone(&self) -> (r: Self)
        ensures
            r@ == self@,
    {
        match self {
            HandshakeState::Start => HandshakeState::Start,
            HandshakeState::SentVersion => HandshakeState::SentVersion,
            HandshakeState::SentIdentity => HandshakeState::SentIdentity,
            HandshakeState::AwaitingPeerVersion => HandshakeState::AwaitingPeerVersion,
            HandshakeState::AwaitingPeerIdentity => HandshakeState::AwaitingPeerIdentity,
            HandshakeState::Established(a) => HandshakeState::Established(a.clone()),
            HandshakeState::Failed(a) => HandshakeState::Failed(*a),
        }
    }
}

/// The mathematical value of a [`ProtoTunnel`].
pub ghost struct ProtoTunnelView {
    pub star: Option<StarKeyView>,
    pub version: i32,
    pub tx: ChannelView<FrameView>,
    pub rx: ChannelView<FrameView>,
    pub state: HandshakeStateView,
}

/// A transport on which the two ends have yet to tell each other who they are:
/// the own identity, if it is known, the protocol version spoken, the frames
/// handed to the transport and the frames that arrived.
#[derive(Debug, PartialEq, Eq)]
pub struct ProtoTunnel {
    pub star: Option<StarKey>,
    pub version: i32,
    pub tx: Channel<Frame>,
    pub rx: Channel<Frame>,
    pub state: HandshakeState,
}

impl View for ProtoTunnel {
    type V = ProtoTunnelView;

    open spec fn view(&self) -> ProtoTunnelView {
        ProtoTunnelView {
            star: self.star.deep_view(),
            version: self.version,
            tx: self.tx@,
            rx: self.rx@,
            state: self.state@,
        }
    }
}

impl DeepView for ProtoTunnel {
    type V = ProtoTunnelView;

    open spec fn deep_view(&self) -> ProtoTunnelView {
        self@
    }
}

impl HandshakeStateView {
    /// Whether the handshake is over.
    pub open spec fn is_final(self) -> bool {
        self is Established || self is Failed
    }

    /// The number of steps that the handshake can still take at most.
    pub open spec fn steps_left(self) -> nat {
        match self {
            HandshakeStateView::Start => 5,
            HandshakeStateView::SentVersion => 4,
            HandshakeStateView::SentIdentity => 3,
            HandshakeStateView::AwaitingPeerVersion => 2,
            HandshakeStateView::AwaitingPeerIdentity => 1,
            _ => 0,
        }
    }
}

impl ProtoTunnelView {
    /// A tunnel on which nothing has happened yet.
    pub open spec fn fresh(star: Option<StarKeyView>, version: i32) -> ProtoTunnelView {
        ProtoTunnelView {
            star,
            version,
            tx: ChannelView { items: Seq::empty(), closed: false },
            rx: ChannelView { items: Seq::empty(), closed: false },
            state: HandshakeStateView::Start,
        }
    }

    /// The tunnel after `frames` arrived from the peer.
    pub open spec fn receive(self, frames: Seq<FrameView>) -> ProtoTunnelView {
        ProtoTunnelView { rx: ChannelView { items: self.rx.items + frames, ..self.rx }, ..self }
    }

    /// The tunnel after `frame` was handed to the transport and the
    /// handshake went on to `next`; on a transport that takes nothing the
    /// handshake has failed instead.
    pub open spec fn send(self, frame: FrameView, next: HandshakeStateView) -> ProtoTunnelView {
        if self.tx.closed {
            ProtoTunnelView { state: HandshakeStateView::Failed(MeshError::ChannelClosed), ..self }
        } else {
            ProtoTunnelView {
                tx: ChannelView { items: self.tx.items.push(frame), ..self.tx },
                state: next,
                ..self
            }
        }
    }

    /// Whether the handshake needs a frame that has not arrived, from a peer
    /// that may still send it.
    pub open spec fn waits(self) -> bool {
        (self.state is AwaitingPeerVersion || self.state is AwaitingPeerIdentity)
            && self.rx.items.len() == 0 && !self.rx.closed
    }

    /// The tunnel after the frame at the head of what arrived was taken and
    /// the handshake went on to `next`.
    pub open spec fn taken(self, next: HandshakeStateView) -> ProtoTunnelView {
        ProtoTunnelView {
            rx: ChannelView { items: self.rx.items.drop_first(), ..self.rx },
            state: next,
            ..self
        }
    }

    /// What the protocol version that arrived leads to.
    pub open spec fn on_peer_version(self, frame: FrameView) -> HandshakeStateView {
        match frame {
            FrameView::Proto(ProtoFrameView::StarLaneProtocolVersion(version)) => if version
                == self.version {
                HandshakeStateView::AwaitingPeerIdentity
            } else {
                HandshakeStateView::Failed(MeshError::VersionMismatch)
            },
            _ => HandshakeStateView::Failed(MeshError::UnexpectedFrame),
        }
    }

    /// What the identity that arrived leads to.
    pub open spec fn on_peer_identity(frame: FrameView) -> HandshakeStateView {
        match frame {
            FrameView::Proto(ProtoFrameView::ReportStarKey(remote)) => HandshakeStateView::Established(
                remote,
            ),
            _ => HandshakeStateView::Failed(MeshError::UnexpectedFrame),
        }
    }

    /// The tunnel after the next step of the handshake. First the own
    /// version is sent, then the own identity where it is known. The first
    /// frame that arrives must be the version of the peer, and the same as
    /// the own one; the second must be its identity. A peer that is gone
    /// before that has disconnected. A handshake that waits, or is over,
    /// stays as it is.
    pub open spec fn advance(self) -> ProtoTunnelView {
        match self.state {
            HandshakeStateView::Start => self.send(
                FrameView::Proto(ProtoFrameView::StarLaneProtocolVersion(self.version)),
                HandshakeStateView::SentVersion,
            ),
            HandshakeStateView::SentVersion => match self.star {
                Some(star) => self.send(
                    FrameView::Proto(ProtoFrameView::ReportStarKey(star)),
                    HandshakeStateView::SentIdentity,
                ),
                None => ProtoTunnelView { state: HandshakeStateView::AwaitingPeerVersion, ..self },
            },
            HandshakeStateView::SentIdentity => ProtoTunnelView {
                state: HandshakeStateView::AwaitingPeerVersion,
                ..self
            },
            HandshakeStateView::AwaitingPeerVersion => if self.rx.items.len() > 0 {
                self.taken(self.on_peer_version(self.rx.items[0]))
            } else if self.rx.closed {
                ProtoTunnelView {
                    state: HandshakeStateView::Failed(MeshError::Disconnected),
                    ..self
                }
            } else {
                self
            },
            HandshakeStateView::AwaitingPeerIdentity => if self.rx.items.len() > 0 {
                self.taken(Self::on_peer_identity(self.rx.items[0]))
            } else if self.rx.closed {
                ProtoTunnelView {
                    state: HandshakeStateView::Failed(MeshError::Disconnected),
                    ..self
                }
            } else {
                self
            },
            _ => self,
        }
    }

    /// The tunnel after the handshake went as far as it can on what has
    /// arrived.
    pub open spec fn settle(self) -> ProtoTunnelView
        decreases self.state.steps_left(),
    {
        if self.state.is_final() || self.waits() {
            self
        } else if self.advance().state.steps_left() < self.state.steps_left() {
            self.advance().settle()
        } else {
            self
        }
    }

    /// What the handshake has come to once no more frames are to be had: a
    /// handshake that still waits for the peer counts as disconnected.
    pub open spec fn outcome(self) -> Result<StarKeyView, MeshError> {
        match self.settle().state {
            HandshakeStateView::Established(remote) => Ok(remote),
            HandshakeStateView::Failed(error) => Err(error),
            _ => Err(MeshError::Disconnected),
        }
    }
}

/// Every step of a handshake that neither waits nor is over brings it nearer
/// to its end.
pub proof fn lemma_advance_makes_progress(tunnel: ProtoTunnelView)
    requires
        !tunnel.state.is_final(),
        !tunnel.waits(),
    ensures
        tunnel.advance().state.steps_left() < tunnel.state.steps_left(),
{
}

impl ProtoTunnel {
    /// A tunnel that speaks the protocol version of this library, on which
    /// nothing has happened yet.
    pub fn new(star: Option<StarKey>) -> (r: Self)
        ensures
            r@ == ProtoTunnelView::fresh(star.deep_view(), STARLANE_PROTOCOL_VERSION),
    {
        Self::with_version(star, STARLANE_PROTOCOL_VERSION)
    }

    /// A tunnel that speaks the given protocol version, on which nothing has
    /// happened yet.
    pub fn with_version(star: Option<StarKey>, version: i32) -> (r: Self)
        ensures
            r@ == ProtoTunnelView::fresh(star.deep_view(), version),
    {
        ProtoTunnel {
            star,
            version,
            tx: Channel::new(),
            rx: Channel::new(),
            state: HandshakeState::Start,
        }
    }

    /// Hands `frame` to the transport and goes on to `next`.
    fn send(&mut self, frame: Frame, next: HandshakeState)
        ensures
            final(self)@ == old(self)@.send(frame@, next@),
    {
        match self.tx.send(frame) {
            Ok(_) => {
                self.state = next;
            },
            Err(error) => {
                self.state = HandshakeState::Failed(error);
            },
        }
    }

    /// What the frame that arrived while the version of the peer was awaited
    /// leads to.
    fn on_peer_version(&self, frame: &Frame) -> (r: HandshakeState)
        ensures
            r@ == self@.on_peer_version(frame@),
    {
        match frame {
            Frame::Proto(ProtoFrame::StarLaneProtocolVersion(version)) => {
                if *version == self.version {
                    HandshakeState::AwaitingPeerIdentity
                } else {
                    HandshakeState::Failed(MeshError::VersionMismatch)
                }
            },
            _ => HandshakeState::Failed(MeshError::UnexpectedFrame),
        }
    }

    /// What the frame that arrived while the identity of the peer was
    /// awaited leads to.
    fn on_peer_identity(frame: Frame) -> (r: HandshakeState)
        ensures
            r@ == ProtoTunnelView::on_peer_identity(frame@),
    {
        match frame {
            Frame::Proto(ProtoFrame::ReportStarKey(remote)) => HandshakeState::Established(remote),
            _ => HandshakeState::Failed(MeshError::UnexpectedFrame),
        }
    }

    /// Takes the next step of the handshake: see
    /// [`ProtoTunnelView::advance`].
    pub fn advance(&mut self)
        ensures
            final(self)@ == old(self)@.advance(),
    {
        let mut state = HandshakeState::Start;
        core::mem::swap(&mut state, &mut self.state);
        match state {
            HandshakeState::Start => {
                self.send(
                    Frame::Proto(ProtoFrame::StarLaneProtocolVersion(self.version)),
                    HandshakeState::SentVersion,
                );
            },
            HandshakeState::SentVersion => {
                match &self.star {
                    Some(star) => {
                        let frame = Frame::Proto(ProtoFrame::ReportStarKey(star.clone()));
                        self.send(frame, HandshakeState::SentIdentity);
                    },
                    None => {
                        self.state = HandshakeState::AwaitingPeerVersion;
                    },
                }
            },
            HandshakeState::SentIdentity => {
                self.state = HandshakeState::AwaitingPeerVersion;
            },
            HandshakeState::AwaitingPeerVersion => {
                match self.rx.try_recv() {
                    Received::Item(frame) => {
                        self.state = self.on_peer_version(&frame);
                    },
                    Received::Closed => {
                        self.state = HandshakeState::Failed(MeshError::Disconnected);
                    },
                    Received::Empty => {
                        self.state = HandshakeState::AwaitingPeerVersion;
                    },
                }
            },
            HandshakeState::AwaitingPeerIdentity => {
                match self.rx.try_recv() {
                    Received::Item(frame) => {
                        self.state = Self::on_peer_identity(frame);
                    },
                    Received::Closed => {
                        self.state = HandshakeState::Failed(MeshError::Disconnected);
                    },
                    Received::Empty => {
                        self.state = HandshakeState::AwaitingPeerIdentity;
                    },
                }
            },
            other => {
                self.state = other;
            },
        }
    }

    /// Whether the handshake is over.
    pub fn is_final(&self) -> (r: bool)
        ensures
            r == self@.state.is_final(),
    {
        match &self.state {
            HandshakeState::Established(_) => true,
            HandshakeState::Failed(_) => true,
            _ => false,
        }
    }

    /// Whether the handshake needs a frame that has not arrived, from a peer
    /// that may still send it.
    pub fn waits(&self) -> (r: bool)
        ensures
            r == self@.waits(),
    {
        let awaiting = match &self.state {
            HandshakeState::AwaitingPeerVersion => true,
            HandshakeState::AwaitingPeerIdentity => true,
            _ => false,
        };
        awaiting && self.rx.is_empty() && !self.rx.is_closed()
    }

    /// Takes the handshake as far as it goes on what has arrived.
    pub fn settle(&mut self)
        ensures
            final(self)@ == old(self)@.settle(),
    {
        while !self.is_final() && !self.waits()
            invariant
                self@.settle() == old(self)@.settle(),
            decreases self@.state.steps_left(),
        {
            proof {
                lemma_advance_makes_progress(self@);
            }
            self.advance();
        }
    }

    /// Runs the handshake to its end and makes the tunnel. No more frames
    /// are to be had: a peer whose version or identity has not arrived
    /// counts as disconnected. The tunnel is to the star that the peer said
    /// it is; its sending half holds the frames of this side for the
    /// transport, its receiving half what arrived after the handshake.
    pub fn evolve(self) -> (r: Result<(TunnelOut, TunnelIn), MeshError>)
        ensures
            match self@.outcome() {
                Ok(remote) => r is Ok && r->Ok_0.0@ == (TunnelOutView {
                    remote_star: remote,
                    tx: self@.settle().tx,
                }) && r->Ok_0.1@ == (TunnelInView { remote_star: remote, rx: self@.settle().rx }),
                Err(error) => r == Err::<(TunnelOut, TunnelIn), MeshError>(error),
            },
    {
        let mut tunnel = self;
        tunnel.settle();
        match tunnel.state {
            HandshakeState::Established(remote) => {
                let remote_star = remote.clone();
                Ok(
                    (
                        TunnelOut { remote_star, tx: tunnel.tx },
                        TunnelIn { remote_star: remote, rx: tunnel.rx },
                    ),
                )
            },
            HandshakeState::Failed(error) => Err(error),
            _ => Err(MeshError::Disconnected),
        }
    }

    /// Carries the frames that each of two tunnels has handed to its
    /// transport over to the other one.
    pub fn exchange(a: &mut ProtoTunnel, b: &mut ProtoTunnel)
        ensures
            final(a)@ == (ProtoTunnelView {
                tx: ChannelView { items: Seq::empty(), ..old(a)@.tx },
                ..old(a)@.receive(old(b)@.tx.items)
            }),
            final(b)@ == (ProtoTunnelView {
                tx: ChannelView { items: Seq::empty(), ..old(b)@.tx },
                ..old(b)@.receive(old(a)@.tx.items)
            }),
    {
        let ghost a_rx = a.rx.items.deep_view();
        let ghost b_rx = b.rx.items.deep_view();
        b.rx.items.append(&mut a.tx.items);
        a.rx.items.append(&mut b.tx.items);
        assert(a.rx.items.deep_view() =~= a_rx + old(b).tx.items.deep_view());
        assert(b.rx.items.deep_view() =~= b_rx + old(a).tx.items.deep_view());
        assert(a.tx.items.deep_view() =~= Seq::<FrameView>::empty());
        assert(b.tx.items.deep_view() =~= Seq::<FrameView>::empty());
    }
}

/// The two ends of a transport inside this process, for the stars `high` and
/// `low`, before any frame has passed.
pub fn local_tunnels(high: Option<StarKey>, low: Option<StarKey>) -> (r: (ProtoTunnel, ProtoTunnel))
    ensures
        r.0@ == ProtoTunnelView::fresh(high.deep_view(), STARLANE_PROTOCOL_VERSION),
        r.1@ == ProtoTunnelView::fresh(low.deep_view(), STARLANE_PROTOCOL_VERSION),
{
    (ProtoTunnel::new(high), ProtoTunnel::new(low))
}

/// The frames with which a tunnel opens the handshake: its version, then its
/// identity where it has one.
pub open spec fn opening_frames(star: Option<StarKeyView>, version: i32) -> Seq<FrameView> {
    match star {
        Some(star) => seq![
            FrameView::Proto(ProtoFrameView::StarLaneProtocolVersion(version)),
            FrameView::Proto(ProtoFrameView::ReportStarKey(star)),
        ],
        None => seq![FrameView::Proto(ProtoFrameView::StarLaneProtocolVersion(version))],
    }
}

/// A fresh tunnel sends its opening frames and then waits for the peer.
pub proof fn lemma_fresh_tunnel_opens(star: Option<StarKeyView>, version: i32)
    ensures
        ProtoTunnelView::fresh(star, version).settle() == (ProtoTunnelView {
            tx: ChannelView { items: opening_frames(star, version), closed: false },
            state: HandshakeStateView::AwaitingPeerVersion,
            ..ProtoTunnelView::fresh(star, version)
        }),
{
    reveal_with_fuel(ProtoTunnelView::settle, 5);
    let fresh = ProtoTunnelView::fresh(star, version);
    let first = fresh.advance();
    assert(first.tx.items =~= seq![
        FrameView::Proto(ProtoFrameView::StarLaneProtocolVersion(version)),
    ]);
    let second = first.advance();
    match star {
        Some(key) => {
            assert(second.tx.items =~= opening_frames(star, version));
            let third = second.advance();
            assert(third.waits());
        },
        None => {
            assert(second.waits());
        },
    }
}

/// What a tunnel that has opened the handshake makes of the opening frames
/// of a peer: with the same version and an identity, a tunnel to that
/// identity; with another version, a version mismatch.
pub proof fn lemma_opened_tunnel_meets_peer(
    own: Option<StarKeyView>,
    version: i32,
    peer: StarKeyView,
    peer_version: i32,
)
    ensures
        ProtoTunnelView::fresh(own, version).settle().receive(
            opening_frames(Some(peer), peer_version),
        ).settle().state == if version == peer_version {
            HandshakeStateView::Established(peer)
        } else {
            HandshakeStateView::Failed(MeshError::VersionMismatch)
        },
{
    lemma_fresh_tunnel_opens(own, version);
    reveal_with_fuel(ProtoTunnelView::settle, 4);
    let frames = opening_frames(Some(peer), peer_version);
    let opened = ProtoTunnelView::fresh(own, version).settle();
    let fed = opened.receive(frames);
    assert(fed.rx.items =~= frames);
    let first = fed.advance();
    if version == peer_version {
        assert(first.rx.items =~= seq![FrameView::Proto(ProtoFrameView::ReportStarKey(peer))]);
        let second = first.advance();
        assert(second.state == HandshakeStateView::Established(peer));
    }
}

/// Handshake symmetry: two stars that speak the same version and open a
/// handshake with each other end up with a tunnel each, and each tunnel is to
/// the other star.
pub proof fn lemma_handshake_symmetry(a: StarKeyView, b: StarKeyView, version: i32)
    ensures
        ProtoTunnelView::fresh(Some(a), version).settle().receive(
            ProtoTunnelView::fresh(Some(b), version).settle().tx.items,
        ).outcome() == Ok::<StarKeyView, MeshError>(b),
        ProtoTunnelView::fresh(Some(b), version).settle().receive(
            ProtoTunnelView::fresh(Some(a), version).settle().tx.items,
        ).outcome() == Ok::<StarKeyView, MeshError>(a),
{
    lemma_fresh_tunnel_opens(Some(a), version);
    lemma_fresh_tunnel_opens(Some(b), version);
    lemma_opened_tunnel_meets_peer(Some(a), version, b, version);
    lemma_opened_tunnel_meets_peer(Some(b), version, a, version);
}

/// Version mismatch: two stars that speak different versions both fail the
/// handshake with a version mismatch, and neither gets a tunnel.
pub proof fn lemma_version_mismatch(
    a: Option<StarKeyView>,
    a_version: i32,
    b: Option<StarKeyView>,
    b_version: i32,
)
    requires
        a_version != b_version,
    ensures
        ProtoTunnelView::fresh(a, a_version).settle().receive(
            ProtoTunnelView::fresh(b, b_version).settle().tx.items,
        ).outcome() == Err::<StarKeyView, MeshError>(MeshError::VersionMismatch),
        ProtoTunnelView::fresh(b, b_version).settle().receive(
            ProtoTunnelView::fresh(a, a_version).settle().tx.items,
        ).outcome() == Err::<StarKeyView, MeshError>(MeshError::VersionMismatch),
{
    lemma_fresh_tunnel_opens(a, a_version);
    lemma_fresh_tunnel_opens(b, b_version);
    lemma_opened_tunnel_rejects_version(a, a_version, b, b_version);
    lemma_opened_tunnel_rejects_version(b, b_version, a, a_version);
}

/// A tunnel that has opened the handshake fails with a version mismatch on
/// the opening frames of a peer that speaks another version.
pub proof fn lemma_opened_tunnel_rejects_version(
    own: Option<StarKeyView>,
    version: i32,
    peer: Option<StarKeyView>,
    peer_version: i32,
)
    requires
        version != peer_version,
    ensures
        ProtoTunnelView::fresh(own, version).settle().receive(
            opening_frames(peer, peer_version),
        ).settle().state == HandshakeStateView::Failed(MeshError::VersionMismatch),
{
    lemma_fresh_tunnel_opens(own, version);
    reveal_with_fuel(ProtoTunnelView::settle, 3);
    let frames = opening_frames(peer, peer_version);
    let fed = ProtoTunnelView::fresh(own, version).settle().receive(frames);
    assert(fed.rx.items =~= frames);
    assert(fed.rx.items[0] == FrameView::Proto(
        ProtoFrameView::StarLaneProtocolVersion(peer_version),
    ));
}

/// The answer that a frame waits for.
#[derive(Clone, Copy, Debug, PartialEq, Eq, Hash, Structural)]
pub enum FrameExpectation {
    /// A path to the central star.
    CentralFound,
    /// A subgraph of its own for the asking star.
    GrantSubgraphExpansion,
    /// A message that assigns a sequence of identifiers.
    AssignSequence,
}

/// The mathematical value of a [`ProtoTrackerCase`].
pub ghost struct ProtoTrackerCaseView {
    pub frame: FrameView,
    pub instant: u64,
    pub expect: FrameExpectation,
    pub retries: usize,
}

/// A frame that waits for an answer: when it was last sent, in seconds, what
/// answers it, and how often it has gone unanswered.
#[derive(Debug, PartialEq, Eq, Hash)]
pub struct ProtoTrackerCase {
    pub frame: Frame,
    pub instant: u64,
    pub expect: FrameExpectation,
    pub retries: usize,
}

impl View for ProtoTrackerCase {
    type V = ProtoTrackerCaseView;

    open spec fn view(&self) -> ProtoTrackerCaseView {
        ProtoTrackerCaseView {
            frame: self.frame@,
            instant: self.instant,
            expect: self.expect,
            retries: self.retries,
        }
    }
}

impl DeepView for ProtoTrackerCase {
    type V = ProtoTrackerCaseView;

    open spec fn deep_view(&self) -> ProtoTrackerCaseView {
        self@
    }
}

impl Clone for ProtoTrackerCase {
    fn clone(&self) -> (r: Self)
        ensures
            r@ == self@,
    {
        let r = ProtoTrackerCase {
            frame: self.frame.clone(),
            instant: self.instant,
            expect: self.expect,
            retries: self.retries,
        };
        r
    }
}

/// The mathematical value of a [`ProtoTracker`].
pub ghost struct ProtoTrackerView {
    pub case: Option<ProtoTrackerCaseView>,
    pub timeout: u64,
}

/// The one frame of a node that waits for an answer, if there is one, and the
/// seconds it is given.
#[derive(Debug, PartialEq, Eq, Hash)]
pub struct ProtoTracker {
    pub case: Option<ProtoTrackerCase>,
    pub timeout: u64,
}

impl View for ProtoTracker {
    type V = ProtoTrackerView;

    open spec fn view(&self) -> ProtoTrackerView {
        ProtoTrackerView {
            case: self.case.deep_view(),
            timeout: self.timeout,
        }
    }
}

impl DeepView for ProtoTracker {
    type V = ProtoTrackerView;

    open spec fn deep_view(&self) -> ProtoTrackerView {
        self@
    }
}

impl Clone for ProtoTracker {
    fn clone(&self) -> (r: Self)
        ensures
            r@ == self@,
    {
        let r = ProtoTracker {
            case: self.case.clone(),
            timeout: self.timeout,
        };
        r
    }
}

/// The mathematical value of a [`TrackerCheck`].
pub ghost enum TrackerCheckView {
    Idle,
    Wait(u64),
    Timeout(FrameTimeoutInnerView),
}

/// What a look at the tracker finds.
#[derive(Debug, PartialEq, Eq, Hash)]
pub enum TrackerCheck {
    /// No frame waits for an answer.
    Idle,
    /// The answer has this many seconds left to come.
    Wait(u64),
    /// The answer did not come in time.
    Timeout(FrameTimeoutInner),
}

impl View for TrackerCheck {
    type V = TrackerCheckView;

    open spec fn view(&self) -> TrackerCheckView {
        match self {
            TrackerCheck::Idle => TrackerCheckView::Idle,
            TrackerCheck::Wait(a) => TrackerCheckView::Wait(*a),
            TrackerCheck::Timeout(a) => TrackerCheckView::Timeout(a@),
        }
    }
}

impl DeepView for TrackerCheck {
    type V = TrackerCheckView;

    open spec fn deep_view(&self) -> TrackerCheckView {
        self@
    }
}

impl Clone for TrackerCheck {
    fn clone(&self) -> (r: Self)
        ensures
            r@ == self@,
    {
        match self {
            TrackerCheck::Idle => TrackerCheck::Idle,
            TrackerCheck::Wait(a) => TrackerCheck::Wait(*a),
            TrackerCheck::Timeout(a) => TrackerCheck::Timeout(a.clone()),
        }
    }
}

impl FrameExpectation {
    /// Whether `frame` is the answer waited for.
    pub open spec fn met_by(self, frame: FrameView) -> bool {
        match self {
            FrameExpectation::CentralFound => frame matches FrameView::Proto(
                ProtoFrameView::CentralFound(_),
            ),
            FrameExpectation::GrantSubgraphExpansion => frame matches FrameView::Proto(
                ProtoFrameView::GrantSubgraphExpansion(_),
            ),
            FrameExpectation::AssignSequence => frame matches FrameView::StarMessage(message)
                && message.payload is AssignSequence,
        }
    }

    /// Whether `frame` is the answer waited for.
    pub fn matches(&self, frame: &Frame) -> (r: bool)
        ensures
            r == self.met_by(frame@),
    {
        match self {
            FrameExpectation::CentralFound => match frame {
                Frame::Proto(ProtoFrame::CentralFound(_)) => true,
                _ => false,
            },
            FrameExpectation::GrantSubgraphExpansion => match frame {
                Frame::Proto(ProtoFrame::GrantSubgraphExpansion(_)) => true,
                _ => false,
            },
            FrameExpectation::AssignSequence => match frame {
                Frame::StarMessage(message) => match &message.payload {
                    StarMessagePayload::AssignSequence(_) => true,
                    _ => false,
                },
                _ => false,
            },
        }
    }
}

impl ProtoTrackerCase {
    /// Starts the wait anew at `now`.
    pub fn reset(&mut self, now: u64)
        ensures
            final(self)@ == (ProtoTrackerCaseView { instant: now, ..old(self)@ }),
    {
        self.instant = now;
    }
}

impl ProtoTrackerView {
    /// The tracker after `frame` was sent at `now` and waits for `expect`: a
    /// frame that waited before is forgotten.
    pub open spec fn track(self, frame: FrameView, expect: FrameExpectation, now: u64) -> ProtoTrackerView {
        ProtoTrackerView {
            case: Some(ProtoTrackerCaseView { frame, instant: now, expect, retries: 0 }),
            ..self
        }
    }

    /// The tracker after `frame` arrived: the answer waited for ends the
    /// wait.
    pub open spec fn process(self, frame: FrameView) -> ProtoTrackerView {
        match self.case {
            Some(case) => if case.expect.met_by(frame) {
                ProtoTrackerView { case: None, ..self }
            } else {
                self
            },
            None => self,
        }
    }

    /// The seconds that have passed at `now` since the frame was last sent.
    pub open spec fn elapsed(case: ProtoTrackerCaseView, now: u64) -> int {
        if now >= case.instant {
            now - case.instant
        } else {
            0
        }
    }

    /// What a look at the tracker finds at `now`, and the tracker after it.
    /// Once the time given has passed the frame is counted as unanswered once
    /// more and its wait starts anew.
    pub open spec fn check(self, now: u64) -> (ProtoTrackerView, TrackerCheckView) {
        match self.case {
            None => (self, TrackerCheckView::Idle),
            Some(case) => if Self::elapsed(case, now) < self.timeout {
                (self, TrackerCheckView::Wait((self.timeout - Self::elapsed(case, now)) as u64))
            } else {
                let retries = if case.retries < usize::MAX {
                    (case.retries + 1) as usize
                } else {
                    case.retries
                };
                (
                    ProtoTrackerView {
                        case: Some(ProtoTrackerCaseView { instant: now, retries, ..case }),
                        ..self
                    },
                    TrackerCheckView::Timeout(
                        FrameTimeoutInnerView { frame: case.frame, retries },
                    ),
                )
            },
        }
    }
}

impl ProtoTracker {
    /// A tracker on which no frame waits, with the usual timeout.
    pub fn new() -> (r: Self)
        ensures
            r@ == (ProtoTrackerView { case: None, timeout: TRACKER_TIMEOUT_SECONDS }),
    {
        ProtoTracker { case: None, timeout: TRACKER_TIMEOUT_SECONDS }
    }

    /// A tracker on which no frame waits, which gives answers `timeout`
    /// seconds.
    pub fn with_timeout(timeout: u64) -> (r: Self)
        ensures
            r@ == (ProtoTrackerView { case: None, timeout }),
    {
        ProtoTracker { case: None, timeout }
    }

    /// Notes that `frame` was sent at `now` and waits for `expect`.
    pub fn track(&mut self, frame: Frame, expect: FrameExpectation, now: u64)
        ensures
            final(self)@ == old(self)@.track(frame@, expect, now),
    {
        self.case = Some(ProtoTrackerCase { frame, instant: now, expect, retries: 0 });
    }

    /// Notes that `frame` arrived.
    pub fn process(&mut self, frame: &Frame)
        ensures
            final(self)@ == old(self)@.process(frame@),
    {
        let answered = match &self.case {
            Some(case) => case.expect.matches(frame),
            None => false,
        };
        if answered {
            self.case = None;
        }
    }

    /// Whether a frame waits for its answer.
    pub fn has_expectation(&self) -> (r: bool)
        ensures
            r == self@.case.is_some(),
    {
        self.case.is_some()
    }

    /// Looks at the tracker at `now`: see [`ProtoTrackerView::check`].
    pub fn check(&mut self, now: u64) -> (r: TrackerCheck)
        ensures
            final(self)@ == old(self)@.check(now).0,
            r@ == old(self)@.check(now).1,
    {
        let mut case = None;
        core::mem::swap(&mut case, &mut self.case);
        match case {
            None => TrackerCheck::Idle,
            Some(mut case) => {
                let elapsed = if now >= case.instant {
                    now - case.instant
                } else {
                    0
                };
                if elapsed < self.timeout {
                    let left = self.timeout - elapsed;
                    self.case = Some(case);
                    TrackerCheck::Wait(left)
                } else {
                    if case.retries < usize::MAX {
                        case.retries = case.retries + 1;
                    }
                    case.reset(now);
                    let timeout = FrameTimeoutInner {
                        frame: case.frame.clone(),
                        retries: case.retries,
                    };
                    self.case = Some(case);
                    TrackerCheck::Timeout(timeout)
                }
            },
        }
    }
}

/// Retry tracking: a frame that goes unanswered for the time given times out
/// once, with one retry counted; when the time has passed once more, it times
/// out again, with two.
pub proof fn lemma_unanswered_frame_times_out(
    tracker: ProtoTrackerView,
    frame: FrameView,
    expect: FrameExpectation,
    sent: u64,
    first: u64,
    second: u64,
)
    requires
        first - sent >= tracker.timeout,
        second - first >= tracker.timeout,
    ensures
        tracker.track(frame, expect, sent).check(first).1 == TrackerCheckView::Timeout(
            FrameTimeoutInnerView { frame, retries: 1 },
        ),
        tracker.track(frame, expect, sent).check(first).0.check(second).1
            == TrackerCheckView::Timeout(FrameTimeoutInnerView { frame, retries: 2 }),
{
}

/// Before the time given has passed, a look at the tracker yields no timeout
/// and changes nothing.
pub proof fn lemma_no_timeout_before_its_time(tracker: ProtoTrackerView, now: u64)
    requires
        tracker.case matches Some(case) && ProtoTrackerView::elapsed(case, now) < tracker.timeout,
    ensures
        tracker.check(now).0 == tracker,
        tracker.check(now).1 is Wait,
{
}

/// The answer ends the wait: after it has arrived, no look at the tracker
/// yields a timeout any more, at whatever time.
pub proof fn lemma_answer_ends_the_wait(tracker: ProtoTrackerView, answer: FrameView, now: u64)
    requires
        tracker.case matches Some(case) && case.expect.met_by(answer),
    ensures
        tracker.process(answer).case.is_none(),
        tracker.process(answer).check(now) == (tracker.process(answer), TrackerCheckView::Idle),
{
}

/// The mathematical value of a [`HeldFrame`].
pub ghost struct HeldFrameView {
    pub star: StarKeyView,
    pub frame: FrameView,
}

/// A frame that waits until its star can be reached.
#[derive(Debug, PartialEq, Eq, Hash)]
pub struct HeldFrame {
    pub star: StarKey,
    pub frame: Frame,
}

impl View for HeldFrame {
    type V = HeldFrameView;

    open spec fn view(&self) -> HeldFrameView {
        HeldFrameView {
            star: self.star@,
            frame: self.frame@,
        }
    }
}

impl DeepView for HeldFrame {
    type V = HeldFrameView;

    open spec fn deep_view(&self) -> HeldFrameView {
        self@
    }
}

impl Clone for HeldFrame {
    fn clone(&self) -> (r: Self)
        ensures
            r@ == self@,
    {
        let r = HeldFrame {
            star: self.star.clone(),
            frame: self.frame.clone(),
        };
        r
    }
}

/// The mathematical value of a [`FrameHold`].
pub ghost struct FrameHoldView {
    pub held: Seq<HeldFrameView>,
}

/// The frames of a node that wait for a lane to their star, oldest first.
#[derive(Debug, PartialEq, Eq, Hash)]
pub struct FrameHold {
    pub held: Vec<HeldFrame>,
}

impl View for FrameHold {
    type V = FrameHoldView;

    open spec fn view(&self) -> FrameHoldView {
        FrameHoldView {
            held: self.held.deep_view(),
        }
    }
}

impl DeepView for FrameHold {
    type V = FrameHoldView;

    open spec fn deep_view(&self) -> FrameHoldView {
        self@
    }
}

impl Clone for FrameHold {
    fn clone(&self) -> (r: Self)
        ensures
            r@ == self@,
    {
        let r = FrameHold {
            held: self.held.clone(),
        };
        assert(r.held.deep_view() =~= self.held.deep_view());
        r
    }
}

/// The frames among `held` that wait for `star`, oldest first.
pub open spec fn released_frames(held: Seq<HeldFrameView>, star: StarKeyView) -> Seq<FrameView>
    decreases held.len(),
{
    if held.len() == 0 {
        Seq::empty()
    } else if held.last().star == star {
        released_frames(held.drop_last(), star).push(held.last().frame)
    } else {
        released_frames(held.drop_last(), star)
    }
}

/// What is left of `held` without the frames that wait for `star`.
pub open spec fn kept_frames(held: Seq<HeldFrameView>, star: StarKeyView) -> Seq<HeldFrameView>
    decreases held.len(),
{
    if held.len() == 0 {
        Seq::empty()
    } else if held.last().star == star {
        kept_frames(held.drop_last(), star)
    } else {
        kept_frames(held.drop_last(), star).push(held.last())
    }
}

impl FrameHold {
    /// A hold with nothing in it.
    pub fn new() -> (r: Self)
        ensures
            r@.held == Seq::<HeldFrameView>::empty(),
    {
        let r = FrameHold { held: Vec::new() };
        assert(r.held.deep_view() =~= Seq::<HeldFrameView>::empty());
        r
    }

    /// Keeps `frame` until `star` can be reached.
    pub fn add(&mut self, star: &StarKey, frame: Frame)
        ensures
            final(self)@.held == old(self)@.held.push(HeldFrameView { star: star@, frame: frame@ }),
    {
        let held = HeldFrame { star: star.clone(), frame };
        self.held.push(held);
        assert(self.held.deep_view() =~= old(self).held.deep_view().push(held@));
    }

    /// Hands out the frames that wait for `star`, oldest first, and keeps
    /// the others. `None` where no frame waits for the star.
    pub fn release(&mut self, star: &StarKey) -> (r: Option<Vec<Frame>>)
        ensures
            final(self)@.held == kept_frames(old(self)@.held, star@),
            r.deep_view() == if released_frames(old(self)@.held, star@).len() == 0 {
                None
            } else {
                Some(released_frames(old(self)@.held, star@))
            },
    {
        let mut waiting: Vec<HeldFrame> = Vec::new();
        core::mem::swap(&mut waiting, &mut self.held);
        let ghost all = waiting.deep_view();
        assert(all.len() == waiting.len());
        let mut released: Vec<Frame> = Vec::new();
        let mut done: usize = 0;
        assert(all.take(0) =~= Seq::<HeldFrameView>::empty());
        assert(released.deep_view() =~= Seq::<FrameView>::empty());
        assert(self.held.deep_view() =~= Seq::<HeldFrameView>::empty());
        assert(all.skip(0) =~= all);
        while waiting.len() > 0
            invariant
                all == old(self)@.held,
                done + waiting.len() == all.len(),
                all.len() <= usize::MAX,
                waiting.deep_view() == all.skip(done as int),
                released.deep_view() == released_frames(all.take(done as int), star@),
                self.held.deep_view() == kept_frames(all.take(done as int), star@),
            decreases waiting.len(),
        {
            let ghost before_held = self.held.deep_view();
            let ghost before_released = released.deep_view();
            let ghost before_waiting = waiting.deep_view();
            let ghost first = waiting@[0];
            let item = waiting.remove(0);
            proof {
                assert(item == first);
                assert(before_waiting[0] == first@);
                assert(waiting.deep_view() =~= before_waiting.drop_first());
                assert(all.skip(done as int).drop_first() =~= all.skip(done + 1));
                assert(item@ == all[done as int]);
                assert(all.take(done + 1).drop_last() =~= all.take(done as int));
                assert(all.take(done + 1).last() == all[done as int]);
            }
            if item.star.same(star) {
                released.push(item.frame);
                assert(released.deep_view() =~= before_released.push(item@.frame));
            } else {
                self.held.push(item);
                assert(self.held.deep_view() =~= before_held.push(item@));
            }
            done = done + 1;
        }
        assert(all.take(done as int) =~= all);
        if released.len() == 0 {
            None
        } else {
            Some(released)
        }
    }
}

/// How far a node has come on its way into the mesh.
#[derive(Clone, Copy, Debug, PartialEq, Eq, Hash, Structural)]
pub enum ProtoStarState {
    /// The node has no key yet.
    Unidentified,
    /// The node has a key and looks for the central star.
    SearchingCentral,
    /// The node has asked the central star for a sequence of identifiers.
    AwaitingSequence,
    /// The node has its key and its sequence: it routes and can be routed to.
    Evolved,
}

/// The mathematical value of a [`ProtoStarEvolution`].
pub ghost struct ProtoStarEvolutionView {
    pub star: StarKeyView,
    pub sequence: i64,
}

/// What a node has become: its key and the sequence of its identifiers.
#[derive(Debug, PartialEq, Eq, Hash)]
pub struct ProtoStarEvolution {
    pub star: StarKey,
    pub sequence: i64,
}

impl View for ProtoStarEvolution {
    type V = ProtoStarEvolutionView;

    open spec fn view(&self) -> ProtoStarEvolutionView {
        ProtoStarEvolutionView {
            star: self.star@,
            sequence: self.sequence,
        }
    }
}

impl DeepView for ProtoStarEvolution {
    type V = ProtoStarEvolutionView;

    open spec fn deep_view(&self) -> ProtoStarEvolutionView {
        self@
    }
}

impl Clone for ProtoStarEvolution {
    fn clone(&self) -> (r: Self)
        ensures
            r@ == self@,
    {
        let r = ProtoStarEvolution {
            star: self.star.clone(),
            sequence: self.sequence,
        };
        r
    }
}

/// The kernel that a node of a kind will run.
#[derive(Clone, Copy, Debug, PartialEq, Eq, Hash, Structural)]
pub enum ProtoStarKernel {
    Central,
    Mesh,
    Supervisor,
    Server,
    Gateway,
}

/// A kernel that does nothing.
#[derive(Clone, Copy, Debug, PartialEq, Eq, Hash, Structural)]
pub struct PlaceholderKernel {
}

impl PlaceholderKernel {
    /// The kernel that does nothing.
    pub fn new() -> (r: Self)
        ensures
            r == (PlaceholderKernel {  }),
    {
        PlaceholderKernel {  }
    }
}

impl ProtoStarKernel {
    /// The kernel that the node runs once it has evolved.
    pub fn evolve(&self) -> (r: Result<PlaceholderKernel, Error>)
        ensures
            r is Ok,
    {
        Ok(PlaceholderKernel::new())
    }
}

/// The mathematical value of a [`LaneToCentral`].
pub ghost struct LaneToCentralView {
    pub remote_star: StarKeyView,
    pub hops: usize,
}

/// The neighbour through which the central star is reached, and the distance.
#[derive(Debug, PartialEq, Eq, Hash)]
pub struct LaneToCentral {
    pub remote_star: StarKey,
    pub hops: usize,
}

impl View for LaneToCentral {
    type V = LaneToCentralView;

    open spec fn view(&self) -> LaneToCentralView {
        LaneToCentralView {
            remote_star: self.remote_star@,
            hops: self.hops,
        }
    }
}

impl DeepView for LaneToCentral {
    type V = LaneToCentralView;

    open spec fn deep_view(&self) -> LaneToCentralView {
        self@
    }
}

impl Clone for LaneToCentral {
    fn clone(&self) -> (r: Self)
        ensures
            r@ == self@,
    {
        let r = LaneToCentral {
            remote_star: self.remote_star.clone(),
            hops: self.hops,
        };
        r
    }
}

/// The mathematical value of a [`LaneToCentralState`].
pub ghost enum LaneToCentralStateView {
    Found(LaneToCentralView),
    Unknown,
}

/// Whether a way to the central star is known.
#[derive(Debug, PartialEq, Eq, Hash)]
pub enum LaneToCentralState {
    Found(LaneToCentral),
    Unknown,
}

impl View for LaneToCentralState {
    type V = LaneToCentralStateView;

    open spec fn view(&self) -> LaneToCentralStateView {
        match self {
            LaneToCentralState::Found(a) => LaneToCentralStateView::Found(a@),
            LaneToCentralState::Unknown => LaneToCentralStateView::Unknown,
        }
    }
}

impl DeepView for LaneToCentralState {
    type V = LaneToCentralStateView;

    open spec fn deep_view(&self) -> LaneToCentralStateView {
        self@
    }
}

impl Clone for LaneToCentralState {
    fn clone(&self) -> (r: Self)
        ensures
            r@ == self@,
    {
        match self {
            LaneToCentralState::Found(a) => LaneToCentralState::Found(a.clone()),
            LaneToCentralState::Unknown => LaneToCentralState::Unknown,
        }
    }
}

/// The mathematical value of a lane with its hop counts.
pub ghost struct LaneMetaView {
    pub paths: Seq<(Seq<u16>, usize)>,
    pub limit: nat,
    pub lane: LaneEndpointView,
}

impl View for LaneMeta<LaneEndpoint> {
    type V = LaneMetaView;

    open spec fn view(&self) -> LaneMetaView {
        LaneMetaView { paths: self.paths(), limit: self.limit(), lane: self.lane@ }
    }
}

impl DeepView for LaneMeta<LaneEndpoint> {
    type V = LaneMetaView;

    open spec fn deep_view(&self) -> LaneMetaView {
        self@
    }
}

impl LaneMetaView {
    /// The hops to `star` through the lane, if they are known.
    pub open spec fn hops(self, star: StarKeyView) -> Option<usize> {
        hops_through(Some(self.lane.remote_star), self.paths, star)
    }

    /// The lane after it was asked for the hops to `star`.
    pub open spec fn touched(self, star: StarKeyView) -> LaneMetaView {
        LaneMetaView {
            paths: paths_after_lookup(Some(self.lane.remote_star), self.paths, star),
            ..self
        }
    }

    /// The lane after it learned that `star` is `hops` hops away.
    pub open spec fn learned(self, star: StarKeyView, hops: usize) -> LaneMetaView {
        LaneMetaView {
            paths: entries_after_put(self.paths, self.limit, key_path(star), hops),
            ..self
        }
    }

    /// Whether the sending side of the lane still takes commands.
    pub open spec fn listens(self) -> bool {
        !self.lane.outgoing.out_tx.closed
    }

    /// The lane after its sending side was given `command`; a sending side
    /// that is gone takes nothing.
    pub open spec fn told(self, command: LaneCommandView) -> LaneMetaView {
        if self.listens() {
            LaneMetaView {
                lane: LaneEndpointView {
                    outgoing: OutgoingSideView {
                        out_tx: ChannelView {
                            items: self.lane.outgoing.out_tx.items.push(command),
                            ..self.lane.outgoing.out_tx
                        },
                    },
                    ..self.lane
                },
                ..self
            }
        } else {
            self
        }
    }
}

/// The first of `lanes` that leads to `star`, if one does.
pub open spec fn lane_to(lanes: Seq<LaneMetaView>, star: StarKeyView) -> Option<int>
    decreases lanes.len(),
{
    if lanes.len() == 0 {
        None
    } else if lanes[0].lane.remote_star == star {
        Some(0)
    } else {
        match lane_to(lanes.drop_first(), star) {
            Some(i) => Some(i + 1),
            None => None,
        }
    }
}

/// What `lane_to` finds is a lane to the star, and no lane before it is one.
pub proof fn lemma_lane_to(lanes: Seq<LaneMetaView>, star: StarKeyView)
    ensures
        match lane_to(lanes, star) {
            Some(i) => 0 <= i < lanes.len() && lanes[i].lane.remote_star == star && forall|j: int|
                0 <= j < i ==> lanes[j].lane.remote_star != star,
            None => forall|j: int| 0 <= j < lanes.len() ==> lanes[j].lane.remote_star != star,
        },
    decreases lanes.len(),
{
    if lanes.len() > 0 && lanes[0].lane.remote_star != star {
        let rest = lanes.drop_first();
        lemma_lane_to(rest, star);
        match lane_to(rest, star) {
            Some(i) => {
                assert forall|j: int| 0 <= j < i + 1 implies lanes[j].lane.remote_star != star by {
                    if j > 0 {
                        assert(rest[j - 1] == lanes[j]);
                    }
                }
            },
            None => {
                assert forall|j: int| 0 <= j < lanes.len() implies lanes[j].lane.remote_star
                    != star by {
                    if j > 0 {
                        assert(rest[j - 1] == lanes[j]);
                    }
                }
            },
        }
    }
}

/// The first lane to `star` is the one before which no lane leads to it.
pub proof fn lemma_lane_to_is(lanes: Seq<LaneMetaView>, star: StarKeyView, i: int)
    requires
        0 <= i <= lanes.len(),
        forall|j: int| 0 <= j < i ==> lanes[j].lane.remote_star != star,
        i < lanes.len() ==> lanes[i].lane.remote_star == star,
    ensures
        lane_to(lanes, star) == if i < lanes.len() {
            Some(i)
        } else {
            None
        },
{
    lemma_lane_to(lanes, star);
}

/// Among the first `n` of `lanes`, the first lane through which `star` is
/// the fewest hops away, with that number of hops.
pub open spec fn best_lane(lanes: Seq<LaneMetaView>, star: StarKeyView, n: int) -> Option<
    (int, usize),
>
    decreases n,
{
    if n <= 0 || n > lanes.len() {
        None
    } else {
        let before = best_lane(lanes, star, n - 1);
        match lanes[n - 1].hops(star) {
            Some(hops) => match before {
                Some(best) => if hops < best.1 {
                    Some((n - 1, hops))
                } else {
                    before
                },
                None => Some((n - 1, hops)),
            },
            None => before,
        }
    }
}

/// The best lane is a lane through which the star is known, and through no
/// lane is the star nearer.
pub proof fn lemma_best_lane_is_shortest(lanes: Seq<LaneMetaView>, star: StarKeyView, n: int)
    requires
        0 <= n <= lanes.len(),
    ensures
        match best_lane(lanes, star, n) {
            Some(best) => 0 <= best.0 < n && lanes[best.0].hops(star) == Some(best.1)
                && forall|j: int|
                0 <= j < n ==> (#[trigger] lanes[j].hops(star) matches Some(hops) ==> best.1
                    <= hops),
            None => forall|j: int| 0 <= j < n ==> (#[trigger] lanes[j].hops(star)).is_none(),
        },
    decreases n,
{
    if n > 0 {
        lemma_best_lane_is_shortest(lanes, star, n - 1);
    }
}

/// The lanes after each was asked for the hops to `star`.
pub open spec fn touched_lanes(lanes: Seq<LaneMetaView>, star: StarKeyView) -> Seq<LaneMetaView> {
    Seq::new(lanes.len(), |i: int| lanes[i].touched(star))
}

/// The lanes after `frame` was given to each but the lane to `exclude`.
pub open spec fn broadcast_lanes(
    lanes: Seq<LaneMetaView>,
    frame: FrameView,
    exclude: Option<StarKeyView>,
) -> Seq<LaneMetaView> {
    Seq::new(
        lanes.len(),
        |i: int|
            if exclude == Some(lanes[i].lane.remote_star) {
                lanes[i]
            } else {
                lanes[i].told(LaneCommandView::Frame(frame))
            },
    )
}

/// Gives `command` to the sending side of `lane`.
pub fn tell_lane(lane: &mut LaneMeta<LaneEndpoint>, command: LaneCommand) -> (r: Result<
    (),
    MeshError,
>)
    ensures
        final(lane)@ == old(lane)@.told(command@),
        r == if old(lane)@.listens() {
            Ok::<(), MeshError>(())
        } else {
            Err::<(), MeshError>(MeshError::ChannelClosed)
        },
{
    lane.lane.outgoing.out_tx.send(command)
}

/// The first of `lanes` that leads to `star`.
pub fn find_lane(lanes: &Vec<LaneMeta<LaneEndpoint>>, star: &StarKey) -> (r: Option<usize>)
    ensures
        match lane_to(lanes.deep_view(), star@) {
            Some(i) => r == Some(i as usize) && 0 <= i < lanes.len(),
            None => r.is_none(),
        },
{
    let mut i: usize = 0;
    while i < lanes.len()
        invariant
            i <= lanes.len(),
            forall|j: int| 0 <= j < i ==> lanes.deep_view()[j].lane.remote_star != star@,
        decreases lanes.len() - i,
    {
        if lanes[i].lane.remote_star.same(star) {
            proof {
                assert(lanes.deep_view()[i as int] == lanes[i as int]@);
                lemma_lane_to_is(lanes.deep_view(), star@, i as int);
            }
            return Some(i);
        }
        assert(lanes.deep_view()[i as int] == lanes[i as int]@);
        i += 1;
    }
    proof {
        lemma_lane_to_is(lanes.deep_view(), star@, lanes.len() as int);
    }
    None
}

/// Asks every lane for the hops to `star` and picks the first lane through
/// which they are fewest.
pub fn shortest_lane(lanes: &mut Vec<LaneMeta<LaneEndpoint>>, star: &StarKey) -> (r: Option<
    (usize, usize),
>)
    ensures
        final(lanes).deep_view() == touched_lanes(old(lanes).deep_view(), star@),
        final(lanes).len() == old(lanes).len(),
        match best_lane(old(lanes).deep_view(), star@, old(lanes).len() as int) {
            Some(best) => r == Some((best.0 as usize, best.1)) && 0 <= best.0 < old(lanes).len(),
            None => r.is_none(),
        },
{
    let ghost before = lanes.deep_view();
    let mut best: Option<(usize, usize)> = None;
    let mut i: usize = 0;
    while i < lanes.len()
        invariant
            i <= lanes.len(),
            lanes.len() == before.len(),
            before == old(lanes).deep_view(),
            forall|j: int| 0 <= j < i ==> (#[trigger] lanes[j])@ == before[j].touched(star@),
            forall|j: int| i <= j < lanes.len() ==> (#[trigger] lanes[j])@ == before[j],
            match best_lane(before, star@, i as int) {
                Some(found) => best == Some((found.0 as usize, found.1)),
                None => best.is_none(),
            },
        decreases lanes.len() - i,
    {
        let ghost snapshot = lanes@;
        let hops = lanes[i].get_hops_to_star(star);
        proof {
            assert(snapshot[i as int]@ == before[i as int]);
            assert(forall|j: int| 0 <= j < lanes.len() && j != i ==> lanes[j] == snapshot[j]);
        }
        match hops {
            Some(hops) => {
                match best {
                    Some(found) => {
                        if hops < found.1 {
                            best = Some((i, hops));
                        }
                    },
                    None => {
                        best = Some((i, hops));
                    },
                }
            },
            None => {},
        }
        i += 1;
    }
    assert(lanes.deep_view() =~= touched_lanes(before, star@));
    proof {
        lemma_best_lane_is_shortest(before, star@, before.len() as int);
    }
    best
}

/// Gives `frame` to every lane but the lane to `exclude`.
pub fn broadcast_frame(
    lanes: &mut Vec<LaneMeta<LaneEndpoint>>,
    frame: &Frame,
    exclude: &Option<StarKey>,
)
    ensures
        final(lanes).deep_view() == broadcast_lanes(
            old(lanes).deep_view(),
            frame@,
            exclude.deep_view(),
        ),
{
    let ghost before = lanes.deep_view();
    let mut i: usize = 0;
    while i < lanes.len()
        invariant
            i <= lanes.len(),
            lanes.len() == before.len(),
            before == old(lanes).deep_view(),
            forall|j: int|
                0 <= j < i ==> (#[trigger] lanes[j])@ == broadcast_lanes(
                    before,
                    frame@,
                    exclude.deep_view(),
                )[j],
            forall|j: int| i <= j < lanes.len() ==> (#[trigger] lanes[j])@ == before[j],
        decreases lanes.len() - i,
    {
        let ghost snapshot = lanes@;
        let excluded = match exclude {
            Some(star) => lanes[i].lane.remote_star.same(star),
            None => false,
        };
        if !excluded {
            let sent = tell_lane(&mut lanes[i], LaneCommand::Frame(frame.clone()));
        }
        proof {
            assert(snapshot[i as int]@ == before[i as int]);
            assert(forall|j: int| 0 <= j < lanes.len() && j != i ==> lanes[j] == snapshot[j]);
        }
        i += 1;
    }
    assert(lanes.deep_view() =~= broadcast_lanes(before, frame@, exclude.deep_view()));
}

/// The lanes after `command` was given to the lane to `star`, if there is
/// one.
pub open spec fn told_lanes(
    lanes: Seq<LaneMetaView>,
    star: StarKeyView,
    command: LaneCommandView,
) -> Seq<LaneMetaView> {
    match lane_to(lanes, star) {
        Some(i) => lanes.update(i, lanes[i].told(command)),
        None => lanes,
    }
}

/// The lanes after the lane to `lane`, if there is one, learned that `star`
/// is `hops` hops away through it.
pub open spec fn learned_lanes(
    lanes: Seq<LaneMetaView>,
    lane: StarKeyView,
    star: StarKeyView,
    hops: usize,
) -> Seq<LaneMetaView> {
    match lane_to(lanes, lane) {
        Some(i) => lanes.update(i, lanes[i].learned(star, hops)),
        None => lanes,
    }
}

/// Whether a frame for `star` can be handed to a lane: a lane knows the
/// star, and the best of them still takes commands.
pub open spec fn routable(lanes: Seq<LaneMetaView>, star: StarKeyView) -> bool {
    best_lane(lanes, star, lanes.len() as int) matches Some(best) && lanes[best.0].listens()
}

/// The lanes after a frame for `star` was routed: every lane was asked for
/// the hops to the star, and the best lane, if there is one, was given the
/// frame.
pub open spec fn routed_lanes(
    lanes: Seq<LaneMetaView>,
    star: StarKeyView,
    frame: FrameView,
) -> Seq<LaneMetaView> {
    match best_lane(lanes, star, lanes.len() as int) {
        Some(best) => touched_lanes(lanes, star).update(
            best.0,
            lanes[best.0].touched(star).told(LaneCommandView::Frame(frame)),
        ),
        None => touched_lanes(lanes, star),
    }
}

/// Gives `command` to the lane to `star`, if there is one.
pub fn tell_lane_to(lanes: &mut Vec<LaneMeta<LaneEndpoint>>, star: &StarKey, command: LaneCommand)
    ensures
        final(lanes).deep_view() == told_lanes(old(lanes).deep_view(), star@, command@),
{
    match find_lane(lanes, star) {
        Some(i) => {
            let ghost snapshot = lanes@;
            let sent = tell_lane(&mut lanes[i], command);
            proof {
                assert(snapshot[i as int]@ == old(lanes).deep_view()[i as int]);
                assert(forall|j: int| 0 <= j < lanes.len() && j != i ==> lanes[j] == snapshot[j]);
                assert(lanes.deep_view() =~= told_lanes(old(lanes).deep_view(), star@, command@));
            }
        },
        None => {},
    }
}

/// Lets the lane to `lane`, if there is one, learn that `star` is `hops`
/// hops away through it.
pub fn learn_on_lane(
    lanes: &mut Vec<LaneMeta<LaneEndpoint>>,
    lane: &StarKey,
    star: StarKey,
    hops: usize,
)
    ensures
        final(lanes).deep_view() == learned_lanes(old(lanes).deep_view(), lane@, star@, hops),
{
    match find_lane(lanes, lane) {
        Some(i) => {
            let ghost snapshot = lanes@;
            lanes[i].set_hops_to_star(star, hops);
            proof {
                assert(snapshot[i as int]@ == old(lanes).deep_view()[i as int]);
                assert(forall|j: int| 0 <= j < lanes.len() && j != i ==> lanes[j] == snapshot[j]);
                assert(lanes.deep_view() =~= learned_lanes(
                    old(lanes).deep_view(),
                    lane@,
                    star@,
                    hops,
                ));
            }
        },
        None => {},
    }
}

/// Routes a frame for `star`: hands it to the first lane through which the
/// star is the fewest hops away. Where no lane knows the star, or the best
/// lane takes no more commands, the frame comes back.
pub fn route_frame(lanes: &mut Vec<LaneMeta<LaneEndpoint>>, star: &StarKey, frame: Frame) -> (r:
    Option<Frame>)
    ensures
        final(lanes).deep_view() == routed_lanes(old(lanes).deep_view(), star@, frame@),
        r.deep_view() == if routable(old(lanes).deep_view(), star@) {
            None
        } else {
            Some(frame@)
        },
{
    let ghost before = lanes.deep_view();
    match shortest_lane(lanes, star) {
        Some(best) => {
            let ghost snapshot = lanes@;
            let ghost touched = lanes.deep_view();
            assert(snapshot[best.0 as int]@ == touched[best.0 as int]);
            if lanes[best.0].lane.outgoing.out_tx.is_closed() {
                assert(lanes.deep_view() =~= routed_lanes(before, star@, frame@));
                Some(frame)
            } else {
                let sent = tell_lane(&mut lanes[best.0], LaneCommand::Frame(frame));
                proof {
                    assert(forall|j: int|
                        0 <= j < lanes.len() && j != best.0 ==> lanes[j] == snapshot[j]);
                    assert forall|j: int| 0 <= j < lanes.len() implies lanes.deep_view()[j]
                        == routed_lanes(before, star@, frame@)[j] by {
                        if j != best.0 {
                            assert(lanes[j] == snapshot[j]);
                            assert(snapshot[j]@ == touched[j]);
                        }
                    }
                    assert(lanes.deep_view() =~= routed_lanes(before, star@, frame@));
                }
                None
            }
        },
        None => Some(frame),
    }
}

/// The mathematical value of a [`ProtoStar`].
pub ghost struct ProtoStarView {
    pub star_key: Option<StarKeyView>,
    pub sequence: Option<IdSeq>,
    pub kind: StarKind,
    pub state: ProtoStarState,
    pub command_rx: ChannelView<StarCommandView>,
    pub evolution_tx: ChannelView<ProtoStarEvolutionView>,
    pub lanes: Seq<LaneMetaView>,
    pub connector_ctrls: Seq<ConnectorControllerView>,
    pub frame_hold: FrameHoldView,
    pub tracker: ProtoTrackerView,
    pub next_subgraph: u16,
    pub next_sequence: i64,
}

/// A node on its way into the mesh, and, once it has evolved, in it. It
/// takes one thing at a time: a command, a frame from a lane, or the timeout
/// of a frame that went unanswered.
pub struct ProtoStar {
    pub star_key: Option<StarKey>,
    pub sequence: Option<IdSeq>,
    pub kind: StarKind,
    pub state: ProtoStarState,
    pub command_rx: Channel<StarCommand>,
    pub evolution_tx: Channel<ProtoStarEvolution>,
    pub lanes: Vec<LaneMeta<LaneEndpoint>>,
    pub connector_ctrls: Vec<ConnectorController>,
    pub frame_hold: FrameHold,
    pub tracker: ProtoTracker,
    pub next_subgraph: u16,
    pub next_sequence: i64,
}

impl View for ProtoStar {
    type V = ProtoStarView;

    open spec fn view(&self) -> ProtoStarView {
        ProtoStarView {
            star_key: self.star_key.deep_view(),
            sequence: self.sequence,
            kind: self.kind,
            state: self.state,
            command_rx: self.command_rx@,
            evolution_tx: self.evolution_tx@,
            lanes: self.lanes.deep_view(),
            connector_ctrls: self.connector_ctrls.deep_view(),
            frame_hold: self.frame_hold@,
            tracker: self.tracker@,
            next_subgraph: self.next_subgraph,
            next_sequence: self.next_sequence,
        }
    }
}

/// The frame that asks for a path to the central star.
pub open spec fn central_search() -> FrameView {
    FrameView::Proto(ProtoFrameView::CentralSearch)
}

/// The frame that says that the central star is `hops` hops away.
pub open spec fn central_found(hops: i32) -> FrameView {
    FrameView::Proto(ProtoFrameView::CentralFound(hops))
}

/// The message with which `from` asks the central star for a sequence.
pub open spec fn sequence_request(from: StarKeyView) -> FrameView {
    FrameView::StarMessage(
        StarMessageView {
            from,
            to: StarKey::central_view(),
            id: Id { sequence: 0, index: 0 },
            transaction: None,
            payload: StarMessagePayloadView::RequestSequence,
            retry: 0,
            max_retries: 16,
        },
    )
}

/// The message with which the central star `from` assigns `sequence` in
/// answer to `request`.
pub open spec fn sequence_assignment(
    from: StarKeyView,
    request: StarMessageView,
    sequence: i64,
) -> StarMessageView {
    StarMessageView {
        from,
        to: request.from,
        id: Id { sequence: 0, index: sequence },
        transaction: request.transaction,
        payload: StarMessagePayloadView::AssignSequence(sequence),
        retry: 0,
        max_retries: 16,
    }
}

impl ProtoStarView {
    /// Whether the node is the central star.
    pub open spec fn is_central(self) -> bool {
        self.star_key == Some(StarKey::central_view())
    }

    /// The hops to `star` over the best lane, if any lane knows the star.
    pub open spec fn hops_to(self, star: StarKeyView) -> Option<usize> {
        match best_lane(self.lanes, star, self.lanes.len() as int) {
            Some(best) => Some(best.1),
            None => None,
        }
    }

    /// The node after every lane was asked for the hops to `star`.
    pub open spec fn touched(self, star: StarKeyView) -> ProtoStarView {
        ProtoStarView { lanes: touched_lanes(self.lanes, star), ..self }
    }

    /// The node after `frame` was sent towards `star`: over the best lane
    /// or, where the star cannot be reached, into the hold if `hold` says
    /// so, else nowhere.
    pub open spec fn send_frame(self, star: StarKeyView, frame: FrameView, hold: bool) -> ProtoStarView {
        ProtoStarView {
            lanes: routed_lanes(self.lanes, star, frame),
            frame_hold: if hold && !routable(self.lanes, star) {
                FrameHoldView { held: self.frame_hold.held.push(HeldFrameView { star, frame }) }
            } else {
                self.frame_hold
            },
            ..self
        }
    }

    /// The node after `frame` was given to every lane but the lane to
    /// `exclude`.
    pub open spec fn broadcast(self, frame: FrameView, exclude: Option<StarKeyView>) -> ProtoStarView {
        ProtoStarView { lanes: broadcast_lanes(self.lanes, frame, exclude), ..self }
    }

    /// The node after `frame` was given to the lane to `lane`.
    pub open spec fn reply(self, lane: StarKeyView, frame: FrameView) -> ProtoStarView {
        ProtoStarView {
            lanes: told_lanes(self.lanes, lane, LaneCommandView::Frame(frame)),
            ..self
        }
    }

    /// The node after it asked every neighbour for a path to the central
    /// star, and began to wait for one.
    pub open spec fn send_central_search(self, now: u64) -> ProtoStarView {
        ProtoStarView {
            tracker: self.tracker.track(central_search(), FrameExpectation::CentralFound, now),
            ..self.broadcast(central_search(), None)
        }
    }

    /// The node after it asked every neighbour for a subgraph of its own,
    /// and began to wait for one.
    pub open spec fn send_expansion_request(self, now: u64) -> ProtoStarView {
        ProtoStarView {
            tracker: self.tracker.track(
                FrameView::Proto(ProtoFrameView::RequestSubgraphExpansion),
                FrameExpectation::GrantSubgraphExpansion,
                now,
            ),
            ..self.broadcast(FrameView::Proto(ProtoFrameView::RequestSubgraphExpansion), None)
        }
    }

    /// The node after it asked the central star for a sequence, and began to
    /// wait for one. A node without a key cannot ask.
    pub open spec fn send_sequence_request(self, now: u64) -> ProtoStarView {
        match self.star_key {
            Some(key) => ProtoStarView {
                tracker: self.tracker.track(
                    sequence_request(key),
                    FrameExpectation::AssignSequence,
                    now,
                ),
                state: ProtoStarState::AwaitingSequence,
                ..self.send_frame(StarKey::central_view(), sequence_request(key), true)
            },
            None => self,
        }
    }

    /// The node after a frame that went unanswered was sent once more. A
    /// search and a request for a subgraph go to every neighbour again, a
    /// message goes towards its star; nothing is put into the hold.
    pub open spec fn resend(self, frame: FrameView) -> ProtoStarView {
        match frame {
            FrameView::Proto(ProtoFrameView::RequestSubgraphExpansion) => self.broadcast(frame, None),
            FrameView::Proto(ProtoFrameView::CentralSearch) => self.broadcast(frame, None),
            FrameView::StarMessage(message) => self.send_frame(message.to, frame, false),
            _ => self,
        }
    }

    /// The node after its bootstrap began. A central node is what it is at
    /// once: it has the key of the central star and the sequence 0, and has
    /// evolved. Any other node asks for a path to the central star and,
    /// while it has no key, for a subgraph of its own.
    pub open spec fn start(self, now: u64) -> ProtoStarView {
        if self.kind == StarKind::Central {
            self.evolved(StarKey::central_view(), 0)
        } else {
            let searching = self.send_central_search(now);
            if searching.star_key is None {
                ProtoStarView {
                    state: ProtoStarState::Unidentified,
                    ..searching.send_expansion_request(now)
                }
            } else {
                ProtoStarView { state: ProtoStarState::SearchingCentral, ..searching }
            }
        }
    }

    /// The node after it became the star `key` with a fresh generator of
    /// identifiers for `sequence`: that it has evolved is announced once.
    pub open spec fn evolved(self, key: StarKeyView, sequence: i64) -> ProtoStarView {
        ProtoStarView {
            star_key: Some(key),
            sequence: Some(IdSeq { sequence, index: 0 }),
            state: ProtoStarState::Evolved,
            evolution_tx: if self.evolution_tx.closed {
                self.evolution_tx
            } else {
                ChannelView {
                    items: self.evolution_tx.items.push(
                        ProtoStarEvolutionView { star: key, sequence },
                    ),
                    ..self.evolution_tx
                }
            },
            ..self
        }
    }

    /// The node after a neighbour asked for a path to the central star. The
    /// central star answers that it is 1 hop away. A node that knows the
    /// central star `hops` hops away answers with one hop more, unless that
    /// is more than a path may have. A node that knows no path is silent.
    pub open spec fn on_central_search(self, lane: StarKeyView) -> ProtoStarView {
        if self.is_central() {
            self.reply(lane, central_found(1))
        } else {
            let asked = self.touched(StarKey::central_view());
            match self.hops_to(StarKey::central_view()) {
                Some(hops) => if hops < MAX_HOPS {
                    asked.reply(lane, central_found((hops + 1) as i32))
                } else {
                    asked
                },
                None => asked,
            }
        }
    }

    /// Whether a number of hops to the central star is one that a node
    /// accepts.
    pub open spec fn acceptable_hops(hops: i32) -> bool {
        1 <= hops <= MAX_HOPS
    }

    /// The node after a neighbour said that the central star is `hops` hops
    /// away through it. The central star itself ignores this, and so does
    /// every node if the number is not one that a path may have. Otherwise
    /// the lane remembers the number, every other lane is told one hop more,
    /// unless that is more than a path may have, and a node that has a key
    /// but has not evolved asks the central star for its sequence.
    pub open spec fn on_central_found(self, lane: StarKeyView, hops: i32, now: u64) -> ProtoStarView {
        if self.is_central() || !Self::acceptable_hops(hops) {
            self
        } else {
            let learned = ProtoStarView {
                lanes: learned_lanes(self.lanes, lane, StarKey::central_view(), hops as usize),
                ..self
            };
            let told = if hops < MAX_HOPS {
                learned.broadcast(central_found((hops + 1) as i32), Some(lane))
            } else {
                learned
            };
            if told.star_key is Some && told.state != ProtoStarState::Evolved {
                told.send_sequence_request(now)
            } else {
                told
            }
        }
    }

    /// The node after it was granted the subgraph at `path`: a node that has
    /// not evolved takes the first key of the subgraph and looks for the
    /// central star from there.
    pub open spec fn on_grant(self, path: Seq<u16>, now: u64) -> ProtoStarView {
        if self.state == ProtoStarState::Evolved {
            self
        } else {
            (ProtoStarView {
                star_key: Some(StarKeyView { subgraph: path, index: 0 }),
                state: ProtoStarState::SearchingCentral,
                ..self
            }).send_central_search(now)
        }
    }

    /// Whether the node is the central star at work.
    pub open spec fn serves(self) -> bool {
        self.is_central() && self.state == ProtoStarState::Evolved
    }

    /// The node after a neighbour asked for a subgraph of its own: the
    /// central star grants the next one, as long as there is one.
    pub open spec fn on_expansion_request(self, lane: StarKeyView) -> ProtoStarView {
        if self.serves() && self.next_subgraph < u16::MAX {
            (ProtoStarView { next_subgraph: (self.next_subgraph + 1) as u16, ..self }).reply(
                lane,
                FrameView::Proto(ProtoFrameView::GrantSubgraphExpansion(seq![self.next_subgraph])),
            )
        } else {
            self
        }
    }

    /// The node after a message arrived. A node without a key takes no
    /// message. A message for another star is sent on towards it. A message
    /// that assigns a sequence makes a node that has not evolved evolve; a
    /// request for a sequence is answered by the central star with the next
    /// one, as long as there is one.
    pub open spec fn on_message(self, message: StarMessageView) -> ProtoStarView {
        match self.star_key {
            None => self,
            Some(key) => if message.to == key {
                match message.payload {
                    StarMessagePayloadView::AssignSequence(sequence) => if self.state
                        != ProtoStarState::Evolved {
                        self.evolved(key, sequence)
                    } else {
                        self
                    },
                    StarMessagePayloadView::RequestSequence => if self.serves()
                        && self.next_sequence < i64::MAX {
                        (ProtoStarView {
                            next_sequence: (self.next_sequence + 1) as i64,
                            ..self
                        }).send_frame(
                            message.from,
                            FrameView::StarMessage(
                                sequence_assignment(key, message, self.next_sequence),
                            ),
                            true,
                        )
                    } else {
                        self
                    },
                    _ => self,
                }
            } else {
                self.send_frame(message.to, FrameView::StarMessage(message), true)
            },
        }
    }

    /// The node after `frame` arrived on the lane to `lane`: the tracker
    /// takes note of it, and the node acts on the frames that it knows.
    pub open spec fn handle_frame(self, lane: StarKeyView, frame: FrameView, now: u64) -> ProtoStarView {
        let noted = ProtoStarView { tracker: self.tracker.process(frame), ..self };
        match frame {
            FrameView::Proto(ProtoFrameView::CentralSearch) => noted.on_central_search(lane),
            FrameView::Proto(ProtoFrameView::CentralFound(hops)) => noted.on_central_found(
                lane,
                hops,
                now,
            ),
            FrameView::Proto(ProtoFrameView::GrantSubgraphExpansion(path)) => noted.on_grant(
                path,
                now,
            ),
            FrameView::Proto(ProtoFrameView::RequestSubgraphExpansion) => noted.on_expansion_request(
                lane,
            ),
            FrameView::StarMessage(message) => noted.on_message(message),
            _ => noted,
        }
    }
}

/// A look at what every lane can find is a look at the best of them: the
/// hops that a node reports to a star are those of a lane that knows the
/// star, and no lane knows it nearer.
pub proof fn lemma_hops_to_is_minimum(node: ProtoStarView, star: StarKeyView)
    ensures
        match node.hops_to(star) {
            Some(hops) => (exists|i: int|
                0 <= i < node.lanes.len() && #[trigger] node.lanes[i].hops(star) == Some(hops))
                && forall|j: int|
                0 <= j < node.lanes.len() ==> (#[trigger] node.lanes[j].hops(star) matches Some(
                    other,
                ) ==> hops <= other),
            None => forall|j: int|
                0 <= j < node.lanes.len() ==> (#[trigger] node.lanes[j].hops(star)).is_none(),
        },
{
    lemma_best_lane_is_shortest(node.lanes, star, node.lanes.len() as int);
}

/// The star at the far end of a lane is 1 hop away from the node, whatever
/// the caches hold, as long as no lane claims less.
pub proof fn lemma_neighbour_is_near(node: ProtoStarView, i: int)
    requires
        0 <= i < node.lanes.len(),
    ensures
        node.hops_to(node.lanes[i].lane.remote_star) matches Some(hops) && hops <= 1,
{
    let star = node.lanes[i].lane.remote_star;
    lemma_best_lane_is_shortest(node.lanes, star, node.lanes.len() as int);
    assert(node.lanes[i].hops(star) == Some(1usize));
}

/// What the lanes find when each is asked in turn, from the lane at `from`
/// on, whether a frame has arrived: the lanes after they were asked, and the
/// first frame found, with the place of its lane.
pub open spec fn poll_lanes(lanes: Seq<LaneMetaView>, from: int) -> (
    Seq<LaneMetaView>,
    Option<(int, FrameView)>,
)
    decreases lanes.len() - from,
{
    if from < 0 || from >= lanes.len() {
        (lanes, None)
    } else {
        let polled = lanes[from].lane.incoming.recv();
        let after = lanes.update(
            from,
            LaneMetaView {
                lane: LaneEndpointView { incoming: polled.0, ..lanes[from].lane },
                ..lanes[from]
            },
        );
        match polled.1 {
            Some(frame) => (after, Some((from, frame))),
            None => poll_lanes(after, from + 1),
        }
    }
}

impl ProtoStarView {
    /// A node of the given kind, with the given key if it has one, before
    /// its bootstrap.
    pub open spec fn fresh(key: Option<StarKeyView>, kind: StarKind) -> ProtoStarView {
        ProtoStarView {
            star_key: key,
            sequence: None,
            kind,
            state: if key is None {
                ProtoStarState::Unidentified
            } else {
                ProtoStarState::SearchingCentral
            },
            command_rx: ChannelView { items: Seq::empty(), closed: false },
            evolution_tx: ChannelView { items: Seq::empty(), closed: false },
            lanes: Seq::empty(),
            connector_ctrls: Seq::empty(),
            frame_hold: FrameHoldView { held: Seq::empty() },
            tracker: ProtoTrackerView { case: None, timeout: TRACKER_TIMEOUT_SECONDS },
            next_subgraph: 1,
            next_sequence: 1,
        }
    }

    /// The node after the frames were sent towards `star`, in order.
    pub open spec fn send_all(self, star: StarKeyView, frames: Seq<FrameView>) -> ProtoStarView
        decreases frames.len(),
    {
        if frames.len() == 0 {
            self
        } else {
            self.send_all(star, frames.drop_last()).send_frame(star, frames.last(), true)
        }
    }

    /// The node after it was given a lane. A lane whose neighbour is not
    /// known is not taken. The lane takes the place of an older lane to the
    /// same neighbour; the frames that waited for the neighbour are sent, in
    /// order; and a node that has not evolved asks every neighbour for a path
    /// to the central star.
    pub open spec fn add_lane(self, lane: ProtoLaneEndpointView) -> ProtoStarView {
        match lane.remote_star {
            None => self,
            Some(remote) => {
                let meta = LaneMetaView {
                    paths: Seq::empty(),
                    limit: HOP_CACHE_LIMIT as nat,
                    lane: LaneEndpointView {
                        remote_star: remote,
                        incoming: lane.incoming,
                        outgoing: lane.outgoing,
                    },
                };
                let taken = ProtoStarView {
                    lanes: match lane_to(self.lanes, remote) {
                        Some(i) => self.lanes.update(i, meta),
                        None => self.lanes.push(meta),
                    },
                    frame_hold: FrameHoldView { held: kept_frames(self.frame_hold.held, remote) },
                    ..self
                };
                let sent = taken.send_all(remote, released_frames(self.frame_hold.held, remote));
                if sent.state != ProtoStarState::Evolved {
                    sent.broadcast(central_search(), None)
                } else {
                    sent
                }
            },
        }
    }

    /// The node after a command. A frame counts only with the lane it came
    /// on; a frame that went unanswered is sent once more.
    pub open spec fn handle(self, command: StarCommandView, lane: Option<StarKeyView>, now: u64) -> ProtoStarView {
        match command {
            StarCommandView::AddLane(added) => self.add_lane(added),
            StarCommandView::AddConnectorController(controller) => ProtoStarView {
                connector_ctrls: self.connector_ctrls.push(controller),
                ..self
            },
            StarCommandView::Frame(frame) => match lane {
                Some(lane) => self.handle_frame(lane, frame, now),
                None => self,
            },
            StarCommandView::FrameTimeout(timeout) => self.resend(timeout.frame),
            StarCommandView::Init => self.start(now),
        }
    }

    /// The node after it took up the next thing that waits, and whether
    /// anything did. The lanes come first, in order; then the commands; then
    /// the frame that waits for an answer, if its time is up.
    pub open spec fn evolve(self, now: u64) -> (ProtoStarView, bool) {
        let polled = poll_lanes(self.lanes, 0);
        let asked = ProtoStarView { lanes: polled.0, ..self };
        match polled.1 {
            Some(found) => (
                asked.handle_frame(polled.0[found.0].lane.remote_star, found.1, now),
                true,
            ),
            None => if asked.command_rx.items.len() > 0 {
                (
                    (ProtoStarView {
                        command_rx: ChannelView {
                            items: asked.command_rx.items.drop_first(),
                            ..asked.command_rx
                        },
                        ..asked
                    }).handle(asked.command_rx.items[0], None, now),
                    true,
                )
            } else {
                let checked = asked.tracker.check(now);
                let looked = ProtoStarView { tracker: checked.0, ..asked };
                match checked.1 {
                    TrackerCheckView::Timeout(timeout) => (looked.resend(timeout.frame), true),
                    _ => (looked, false),
                }
            },
        }
    }
}

impl ProtoStar {
    /// A node of the given kind, with the given key if it has one, before
    /// its bootstrap.
    pub fn new(key: Option<StarKey>, kind: StarKind) -> (r: Self)
        ensures
            r@ == ProtoStarView::fresh(key.deep_view(), kind),
    {
        let state = if key.is_none() {
            ProtoStarState::Unidentified
        } else {
            ProtoStarState::SearchingCentral
        };
        let r = ProtoStar {
            star_key: key,
            sequence: None,
            kind,
            state,
            command_rx: Channel::new(),
            evolution_tx: Channel::new(),
            lanes: Vec::new(),
            connector_ctrls: Vec::new(),
            frame_hold: FrameHold::new(),
            tracker: ProtoTracker::new(),
            next_subgraph: 1,
            next_sequence: 1,
        };
        assert(r.lanes.deep_view() =~= Seq::<LaneMetaView>::empty());
        assert(r.connector_ctrls.deep_view() =~= Seq::<ConnectorControllerView>::empty());
        r
    }

    /// Whether the node is the central star.
    pub fn is_central(&self) -> (r: bool)
        ensures
            r == self@.is_central(),
    {
        match &self.star_key {
            Some(key) => key.is_central(),
            None => false,
        }
    }

    /// Whether the node is the central star at work.
    pub fn serves(&self) -> (r: bool)
        ensures
            r == self@.serves(),
    {
        self.is_central() && self.state == ProtoStarState::Evolved
    }

    /// The fewest hops to `star` that any lane knows of. Every lane is
    /// asked.
    pub fn get_hops_to_star(&mut self, star: &StarKey) -> (r: Option<usize>)
        ensures
            r == old(self)@.hops_to(star@),
            final(self)@ == old(self)@.touched(star@),
    {
        match shortest_lane(&mut self.lanes, star) {
            Some(best) => Some(best.1),
            None => None,
        }
    }

    /// The place of the first lane through which `star` is the fewest hops
    /// away. Every lane is asked.
    pub fn lane_with_shortest_path_to_star(&mut self, star: &StarKey) -> (r: Option<usize>)
        ensures
            match best_lane(old(self)@.lanes, star@, old(self)@.lanes.len() as int) {
                Some(best) => r == Some(best.0 as usize) && 0 <= best.0 < final(self).lanes.len(),
                None => r.is_none(),
            },
            final(self)@ == old(self)@.touched(star@),
    {
        match shortest_lane(&mut self.lanes, star) {
            Some(best) => Some(best.0),
            None => None,
        }
    }

    /// The neighbour through which `to` is the fewest hops away, and the
    /// number of hops. Every lane is asked.
    pub fn shortest_path_star_key(&mut self, to: &StarKey) -> (r: Option<ShortestPathStarKey>)
        ensures
            match best_lane(old(self)@.lanes, to@, old(self)@.lanes.len() as int) {
                Some(best) => r.deep_view() == Some(
                    ShortestPathStarKeyView {
                        to: to@,
                        next_lane: old(self)@.lanes[best.0].lane.remote_star,
                        hops: best.1,
                    },
                ),
                None => r.is_none(),
            },
            final(self)@ == old(self)@.touched(to@),
    {
        match shortest_lane(&mut self.lanes, to) {
            Some(best) => {
                assert(self.lanes[best.0 as int]@ == self.lanes.deep_view()[best.0 as int]);
                Some(
                    ShortestPathStarKey {
                        to: to.clone(),
                        next_lane: self.lanes[best.0].lane.remote_star.clone(),
                        hops: best.1,
                    },
                )
            },
            None => None,
        }
    }

    /// Sends `frame` towards `star` over the best lane; a frame whose star
    /// cannot be reached waits in the hold.
    pub fn send_frame(&mut self, star: &StarKey, frame: Frame)
        ensures
            final(self)@ == old(self)@.send_frame(star@, frame@, true),
    {
        match route_frame(&mut self.lanes, star, frame) {
            Some(back) => {
                self.frame_hold.add(star, back);
            },
            None => {},
        }
    }

    /// Sends `frame` towards `star` over the best lane; a frame whose star
    /// cannot be reached is dropped.
    pub fn send_frame_no_hold(&mut self, star: &StarKey, frame: Frame)
        ensures
            final(self)@ == old(self)@.send_frame(star@, frame@, false),
    {
        let back = route_frame(&mut self.lanes, star, frame);
    }

    /// Sends `message` towards its star; it waits in the hold while the
    /// star cannot be reached.
    pub fn send(&mut self, message: StarMessage)
        ensures
            final(self)@ == old(self)@.send_frame(
                message@.to,
                FrameView::StarMessage(message@),
                true,
            ),
    {
        let to = message.to.clone();
        self.send_frame(&to, Frame::StarMessage(message));
    }

    /// Sends `message` towards its star, or drops it if the star cannot be
    /// reached.
    pub fn send_no_hold(&mut self, message: StarMessage)
        ensures
            final(self)@ == old(self)@.send_frame(
                message@.to,
                FrameView::StarMessage(message@),
                false,
            ),
    {
        let to = message.to.clone();
        self.send_frame_no_hold(&to, Frame::StarMessage(message));
    }

    /// Gives `frame` to every lane but the lane to `exclude`.
    pub fn broadcast(&mut self, frame: Frame, exclude: &Option<StarKey>)
        ensures
            final(self)@ == old(self)@.broadcast(frame@, exclude.deep_view()),
    {
        broadcast_frame(&mut self.lanes, &frame, exclude);
    }

    /// Gives `frame` to every lane but the lane to `exclude`. Nothing is put
    /// into the hold.
    pub fn broadcast_no_hold(&mut self, frame: Frame, exclude: &Option<StarKey>)
        ensures
            final(self)@ == old(self)@.broadcast(frame@, exclude.deep_view()),
    {
        broadcast_frame(&mut self.lanes, &frame, exclude);
    }

    /// Gives `frame` to the lane to `lane`, if there is one.
    pub fn reply(&mut self, lane: &StarKey, frame: Frame)
        ensures
            final(self)@ == old(self)@.reply(lane@, frame@),
    {
        tell_lane_to(&mut self.lanes, lane, LaneCommand::Frame(frame));
    }

    /// Asks every neighbour for a path to the central star and begins to
    /// wait for one.
    pub fn send_central_search(&mut self, now: u64)
        ensures
            final(self)@ == old(self)@.send_central_search(now),
    {
        self.tracker.track(
            Frame::Proto(ProtoFrame::CentralSearch),
            FrameExpectation::CentralFound,
            now,
        );
        self.broadcast(Frame::Proto(ProtoFrame::CentralSearch), &None);
    }

    /// Asks every neighbour for a subgraph of its own and begins to wait for
    /// one.
    pub fn send_expansion_request(&mut self, now: u64)
        ensures
            final(self)@ == old(self)@.send_expansion_request(now),
    {
        self.tracker.track(
            Frame::Proto(ProtoFrame::RequestSubgraphExpansion),
            FrameExpectation::GrantSubgraphExpansion,
            now,
        );
        self.broadcast(Frame::Proto(ProtoFrame::RequestSubgraphExpansion), &None);
    }

    /// Asks the central star for a sequence and begins to wait for one. A
    /// node without a key cannot ask and does nothing.
    pub fn send_sequence_request(&mut self, now: u64)
        ensures
            final(self)@ == old(self)@.send_sequence_request(now),
    {
        match self.star_key.clone() {
            Some(key) => {
                let asked = Frame::StarMessage(
                    StarMessage::to_central(
                        Id::new(0, 0),
                        key.clone(),
                        StarMessagePayload::RequestSequence,
                    ),
                );
                let sent = Frame::StarMessage(
                    StarMessage::to_central(Id::new(0, 0), key, StarMessagePayload::RequestSequence),
                );
                self.tracker.track(asked, FrameExpectation::AssignSequence, now);
                let central = StarKey::central();
                self.send_frame(&central, sent);
                self.state = ProtoStarState::AwaitingSequence;
            },
            None => {},
        }
    }

    /// Sends a frame that went unanswered once more: see
    /// [`ProtoStarView::resend`].
    pub fn resend(&mut self, frame: Frame)
        ensures
            final(self)@ == old(self)@.resend(frame@),
    {
        match frame {
            Frame::Proto(ProtoFrame::RequestSubgraphExpansion) => {
                self.broadcast_no_hold(Frame::Proto(ProtoFrame::RequestSubgraphExpansion), &None);
            },
            Frame::Proto(ProtoFrame::CentralSearch) => {
                self.broadcast_no_hold(Frame::Proto(ProtoFrame::CentralSearch), &None);
            },
            Frame::StarMessage(message) => {
                self.send_no_hold(message);
            },
            _ => {},
        }
    }

    /// Makes the node the star `key` with the sequence `sequence`, and
    /// announces it.
    fn become_star(&mut self, key: StarKey, sequence: i64)
        ensures
            final(self)@ == old(self)@.evolved(key@, sequence),
    {
        self.star_key = Some(key.clone());
        self.sequence = Some(IdSeq::new(sequence));
        self.state = ProtoStarState::Evolved;
        let announced = self.evolution_tx.send(ProtoStarEvolution { star: key, sequence });
    }

    /// Begins the bootstrap: see [`ProtoStarView::start`].
    pub fn start(&mut self, now: u64)
        ensures
            final(self)@ == old(self)@.start(now),
    {
        if self.kind.is_central() {
            self.become_star(StarKey::central(), 0);
        } else {
            self.send_central_search(now);
            if self.star_key.is_none() {
                self.send_expansion_request(now);
                self.state = ProtoStarState::Unidentified;
            } else {
                self.state = ProtoStarState::SearchingCentral;
            }
        }
    }

    /// Answers a neighbour that asked for a path to the central star: see
    /// [`ProtoStarView::on_central_search`].
    fn on_central_search(&mut self, lane: &StarKey)
        ensures
            final(self)@ == old(self)@.on_central_search(lane@),
    {
        if self.is_central() {
            self.reply(lane, Frame::Proto(ProtoFrame::CentralFound(1)));
        } else {
            let central = StarKey::central();
            match self.get_hops_to_star(&central) {
                Some(hops) => {
                    if hops < MAX_HOPS as usize {
                        self.reply(lane, Frame::Proto(ProtoFrame::CentralFound((hops + 1) as i32)));
                    }
                },
                None => {},
            }
        }
    }

    /// Takes note of a path to the central star: see
    /// [`ProtoStarView::on_central_found`].
    fn on_central_found(&mut self, lane: &StarKey, hops: i32, now: u64)
        ensures
            final(self)@ == old(self)@.on_central_found(lane@, hops, now),
    {
        if self.is_central() || hops < 1 || hops > MAX_HOPS {
            return ;
        }
        learn_on_lane(&mut self.lanes, lane, StarKey::central(), hops as usize);
        if hops < MAX_HOPS {
            self.broadcast(Frame::Proto(ProtoFrame::CentralFound(hops + 1)), &Some(lane.clone()));
        }
        if self.star_key.is_some() && self.state != ProtoStarState::Evolved {
            self.send_sequence_request(now);
        }
    }

    /// Takes the subgraph that was granted: see
    /// [`ProtoStarView::on_grant`].
    fn on_grant(&mut self, path: Vec<u16>, now: u64)
        ensures
            final(self)@ == old(self)@.on_grant(path@, now),
    {
        if self.state != ProtoStarState::Evolved {
            self.star_key = Some(StarKey::new_with_subgraph(path, 0));
            self.state = ProtoStarState::SearchingCentral;
            self.send_central_search(now);
        }
    }

    /// Grants a neighbour a subgraph: see
    /// [`ProtoStarView::on_expansion_request`].
    fn on_expansion_request(&mut self, lane: &StarKey)
        ensures
            final(self)@ == old(self)@.on_expansion_request(lane@),
    {
        if self.serves() && self.next_subgraph < u16::MAX {
            let granted = self.next_subgraph;
            self.next_subgraph = granted + 1;
            let mut path: Vec<u16> = Vec::new();
            path.push(granted);
            assert(path@ =~= seq![granted]);
            self.reply(lane, Frame::Proto(ProtoFrame::GrantSubgraphExpansion(path)));
        }
    }

    /// Takes a message: see [`ProtoStarView::on_message`].
    fn on_message(&mut self, message: StarMessage)
        ensures
            final(self)@ == old(self)@.on_message(message@),
    {
        match self.star_key.clone() {
            None => {},
            Some(key) => {
                if message.to.same(&key) {
                    match &message.payload {
                        StarMessagePayload::AssignSequence(sequence) => {
                            if self.state != ProtoStarState::Evolved {
                                self.become_star(key, *sequence);
                            }
                        },
                        StarMessagePayload::RequestSequence => {
                            if self.serves() && self.next_sequence < i64::MAX {
                                let sequence = self.next_sequence;
                                self.next_sequence = sequence + 1;
                                let to = message.from.clone();
                                let answer = StarMessage {
                                    from: key,
                                    to: message.from.clone(),
                                    id: Id::new(0, sequence),
                                    transaction: message.transaction,
                                    payload: StarMessagePayload::AssignSequence(sequence),
                                    retry: 0,
                                    max_retries: 16,
                                };
                                self.send_frame(&to, Frame::StarMessage(answer));
                            }
                        },
                        _ => {},
                    }
                } else {
                    self.send(message);
                }
            },
        }
    }

    /// Takes a frame that arrived on the lane to `lane`: see
    /// [`ProtoStarView::handle_frame`].
    pub fn process_frame(&mut self, lane: &StarKey, frame: Frame, now: u64)
        ensures
            final(self)@ == old(self)@.handle_frame(lane@, frame@, now),
    {
        self.tracker.process(&frame);
        match frame {
            Frame::Proto(ProtoFrame::CentralSearch) => {
                self.on_central_search(lane);
            },
            Frame::Proto(ProtoFrame::CentralFound(hops)) => {
                self.on_central_found(lane, hops, now);
            },
            Frame::Proto(ProtoFrame::GrantSubgraphExpansion(path)) => {
                self.on_grant(path, now);
            },
            Frame::Proto(ProtoFrame::RequestSubgraphExpansion) => {
                self.on_expansion_request(lane);
            },
            Frame::StarMessage(message) => {
                self.on_message(message);
            },
            _ => {},
        }
    }

    /// Sends the frames towards `star`, in order.
    fn send_all(&mut self, star: &StarKey, frames: Vec<Frame>)
        ensures
            final(self)@ == old(self)@.send_all(star@, frames.deep_view()),
    {
        let mut frames = frames;
        let ghost all = frames.deep_view();
        let mut done: usize = 0;
        assert(all.len() == frames.len());
        assert(all.take(0) =~= Seq::<FrameView>::empty());
        assert(all.skip(0) =~= all);
        while frames.len() > 0
            invariant
                done + frames.len() == all.len(),
                all.len() <= usize::MAX,
                frames.deep_view() == all.skip(done as int),
                self@ == old(self)@.send_all(star@, all.take(done as int)),
            decreases frames.len(),
        {
            let ghost waiting = frames.deep_view();
            let ghost first = frames@[0];
            let frame = frames.remove(0);
            proof {
                assert(frame == first);
                assert(waiting[0] == first@);
                assert(frames.deep_view() =~= waiting.drop_first());
                assert(all.skip(done as int).drop_first() =~= all.skip(done + 1));
                assert(all.take(done + 1).drop_last() =~= all.take(done as int));
                assert(all.take(done + 1).last() == all[done as int]);
            }
            self.send_frame(star, frame);
            done = done + 1;
        }
        assert(all.take(done as int) =~= all);
    }

    /// Takes a lane: see [`ProtoStarView::add_lane`].
    pub fn add_lane(&mut self, lane: ProtoLaneEndpoint)
        ensures
            final(self)@ == old(self)@.add_lane(lane@),
    {
        match lane.remote_star {
            None => {},
            Some(remote_star) => {
                let remote = remote_star.clone();
                let meta = LaneMeta::new(
                    LaneEndpoint { remote_star, incoming: lane.incoming, outgoing: lane.outgoing },
                );
                let ghost before = self.lanes.deep_view();
                match find_lane(&self.lanes, &remote) {
                    Some(i) => {
                        let ghost snapshot = self.lanes@;
                        self.lanes[i] = meta;
                        assert(self.lanes.deep_view() =~= before.update(i as int, meta@)) by {
                            assert forall|j: int| 0 <= j < before.len() implies self.lanes.deep_view()[j]
                                == before.update(i as int, meta@)[j] by {
                                if j != i {
                                    assert(self.lanes[j] == snapshot[j]);
                                }
                            }
                        }
                    },
                    None => {
                        self.lanes.push(meta);
                        assert(self.lanes.deep_view() =~= before.push(meta@));
                    },
                }
                match self.frame_hold.release(&remote) {
                    Some(frames) => {
                        self.send_all(&remote, frames);
                    },
                    None => {
                        assert(released_frames(old(self)@.frame_hold.held, remote@)
                            =~= Seq::<FrameView>::empty());
                    },
                }
                if self.state != ProtoStarState::Evolved {
                    self.broadcast(Frame::Proto(ProtoFrame::CentralSearch), &None);
                }
            },
        }
    }

    /// Carries out a command: see [`ProtoStarView::handle`].
    pub fn handle(&mut self, command: StarCommand, lane: &Option<StarKey>, now: u64)
        ensures
            final(self)@ == old(self)@.handle(command@, lane.deep_view(), now),
    {
        match command {
            StarCommand::AddLane(added) => {
                self.add_lane(added);
            },
            StarCommand::AddConnectorController(controller) => {
                self.connector_ctrls.push(controller);
                assert(self.connector_ctrls.deep_view() =~= old(self).connector_ctrls.deep_view().push(
                    controller@,
                ));
            },
            StarCommand::Frame(frame) => {
                match lane {
                    Some(lane) => {
                        self.process_frame(lane, frame, now);
                    },
                    None => {},
                }
            },
            StarCommand::FrameTimeout(timeout) => {
                self.resend(timeout.frame);
            },
            StarCommand::Init => {
                self.start(now);
            },
        }
    }

    /// Asks the lanes in turn, from the lane at `from` on, whether a frame
    /// has arrived, and hands out the first one found with the place of its
    /// lane.
    fn poll(&mut self, from: usize) -> (r: Option<(usize, Frame)>)
        ensures
            final(self)@ == (ProtoStarView {
                lanes: poll_lanes(old(self)@.lanes, from as int).0,
                ..old(self)@
            }),
            final(self).lanes.len() == old(self).lanes.len(),
            match poll_lanes(old(self)@.lanes, from as int).1 {
                Some(found) => (r matches Some(got) && got.0 == found.0 && got.1@ == found.1) && 0
                    <= found.0 < old(self).lanes.len(),
                None => r.is_none(),
            },
    {
        let ghost before = self.lanes.deep_view();
        let mut i: usize = from;
        while i < self.lanes.len()
            invariant
                from <= i,
                self.lanes.len() == before.len(),
                before == old(self)@.lanes,
                poll_lanes(self.lanes.deep_view(), i as int) == poll_lanes(before, from as int),
                self@ == (ProtoStarView { lanes: self.lanes.deep_view(), ..old(self)@ }),
            decreases self.lanes.len() - i,
        {
            let ghost snapshot = self.lanes@;
            let ghost asked = self.lanes.deep_view();
            let found = self.lanes[i].lane.incoming.recv();
            proof {
                assert(snapshot[i as int]@ == asked[i as int]);
                let polled = asked[i as int].lane.incoming.recv();
                let after = asked.update(
                    i as int,
                    LaneMetaView {
                        lane: LaneEndpointView { incoming: polled.0, ..asked[i as int].lane },
                        ..asked[i as int]
                    },
                );
                assert forall|j: int| 0 <= j < asked.len() implies self.lanes.deep_view()[j]
                    == after[j] by {
                    if j != i {
                        assert(self.lanes[j] == snapshot[j]);
                        assert(snapshot[j]@ == asked[j]);
                    }
                }
                assert(self.lanes.deep_view() =~= after);
            }
            match found {
                Some(StarCommand::Frame(frame)) => {
                    return Some((i, frame));
                },
                _ => {},
            }
            i += 1;
        }
        None
    }

    /// Takes up the next thing that waits, and says whether anything did:
    /// see [`ProtoStarView::evolve`].
    pub fn evolve(&mut self, now: u64) -> (r: bool)
        ensures
            final(self)@ == old(self)@.evolve(now).0,
            r == old(self)@.evolve(now).1,
    {
        match self.poll(0) {
            Some(found) => {
                assert(self.lanes[found.0 as int]@ == self.lanes.deep_view()[found.0 as int]);
                let lane = self.lanes[found.0].lane.remote_star.clone();
                self.process_frame(&lane, found.1, now);
                true
            },
            None => {
                match self.command_rx.try_recv() {
                    Received::Item(command) => {
                        self.handle(command, &None, now);
                        true
                    },
                    _ => {
                        match self.tracker.check(now) {
                            TrackerCheck::Timeout(timeout) => {
                                self.resend(timeout.frame);
                                true
                            },
                            _ => false,
                        }
                    },
                }
            },
        }
    }
}

} // verus!
