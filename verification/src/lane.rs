//! Lanes: the long-lived links between neighbouring stars, and the tunnels
//! that carry them.

use vstd::prelude::*;
use crate::channel::{Channel, ChannelView, Received};
use crate::cache::{
    cache_entries, cache_get, cache_limit, cache_new, cache_put, cached_hops, entries_after_get,
    entries_after_put, lemma_get_keeps_hops, lemma_put_then_cached,
};
use crate::error::{Error, MeshError};
use crate::frame::{Frame, FrameView};
use crate::star::{StarCommand, StarCommandView, StarKey, StarKeyView};

verus! {

/// The version of the lane protocol that this library speaks.
pub const STARLANE_PROTOCOL_VERSION: i32 = 1;

/// The number of frames that a queue of a lane holds before its producer has
/// to wait.
pub const LANE_QUEUE_SIZE: usize = 32;

/// The number of stars whose distance a lane remembers.
pub const HOP_CACHE_LIMIT: usize = 32768;

/// The seconds that a connector waits after a failed attempt before it tries
/// again.
pub const RECONNECT_DELAY_SECONDS: u64 = 10;

/// The mathematical value of a [`TunnelOut`].
pub ghost struct TunnelOutView {
    pub remote_star: StarKeyView,
    pub tx: ChannelView<FrameView>,
}

/// The sending half of a tunnel: the star at the far end, and the frames handed
/// to the transport.
#[derive(Debug, PartialEq, Eq)]
pub struct TunnelOut {
    pub remote_star: StarKey,
    pub tx: Channel<Frame>,
}

impl View for TunnelOut {
    type V = TunnelOutView;

    open spec fn view(&self) -> TunnelOutView {
        TunnelOutView {
            remote_star: self.remote_star@,
            tx: self.tx@,
        }
    }
}

impl DeepView for TunnelOut {
    type V = TunnelOutView;

    open spec fn deep_view(&self) -> TunnelOutView {
        self@
    }
}

/// The mathematical value of a [`TunnelIn`].
pub ghost struct TunnelInView {
    pub remote_star: StarKeyView,
    pub rx: ChannelView<FrameView>,
}

/// The receiving half of a tunnel: the star at the far end, and the frames that
/// arrived from it.
#[derive(Debug, PartialEq, Eq)]
pub struct TunnelIn {
    pub remote_star: StarKey,
    pub rx: Channel<Frame>,
}

impl View for TunnelIn {
    type V = TunnelInView;

    open spec fn view(&self) -> TunnelInView {
        TunnelInView {
            remote_star: self.remote_star@,
            rx: self.rx@,
        }
    }
}

impl DeepView for TunnelIn {
    type V = TunnelInView;

    open spec fn deep_view(&self) -> TunnelInView {
        self@
    }
}

/// The mathematical value of a [`TunnelOutState`].
pub ghost enum TunnelOutStateView {
    Out(TunnelOutView),
    Absent,
}

/// The sending half of the tunnel that a lane currently has, if it has one.
#[derive(Debug, PartialEq, Eq)]
pub enum TunnelOutState {
    Out(TunnelOut),
    Absent,
}

impl View for TunnelOutState {
    type V = TunnelOutStateView;

    open spec fn view(&self) -> TunnelOutStateView {
        match self {
            TunnelOutState::Out(a) => TunnelOutStateView::Out(a@),
            TunnelOutState::Absent => TunnelOutStateView::Absent,
        }
    }
}

impl DeepView for TunnelOutState {
    type V = TunnelOutStateView;

    open spec fn deep_view(&self) -> TunnelOutStateView {
        self@
    }
}

/// The mathematical value of a [`TunnelInState`].
pub ghost enum TunnelInStateView {
    In(TunnelInView),
    Absent,
}

/// The receiving half of the tunnel that a lane currently has, if it has one.
#[derive(Debug, PartialEq, Eq)]
pub enum TunnelInState {
    In(TunnelIn),
    Absent,
}

impl View for TunnelInState {
    type V = TunnelInStateView;

    open spec fn view(&self) -> TunnelInStateView {
        match self {
            TunnelInState::In(a) => TunnelInStateView::In(a@),
            TunnelInState::Absent => TunnelInStateView::Absent,
        }
    }
}

impl DeepView for TunnelInState {
    type V = TunnelInStateView;

    open spec fn deep_view(&self) -> TunnelInStateView {
        self@
    }
}

impl TunnelOutState {
    /// `Sender` with a tunnel, `None` without.
    pub fn to_string(&self) -> (r: String)
        ensures
            r@ == if self@ is Out {
                "Sender"@
            } else {
                "None"@
            },
    {
        match self {
            TunnelOutState::Out(_) => String::from_str("Sender"),
            TunnelOutState::Absent => String::from_str("None"),
        }
    }
}

impl TunnelInState {
    /// `Receiver` with a tunnel, `None` without.
    pub fn to_string(&self) -> (r: String)
        ensures
            r@ == if self@ is In {
                "Receiver"@
            } else {
                "None"@
            },
    {
        match self {
            TunnelInState::In(_) => String::from_str("Receiver"),
            TunnelInState::Absent => String::from_str("None"),
        }
    }
}

/// The mathematical value of a [`LaneCommand`].
pub ghost enum LaneCommandView {
    Tunnel(TunnelOutStateView),
    Frame(FrameView),
    Shutdown,
}

/// What the sending side of a lane is told to do.
#[derive(Debug, PartialEq, Eq)]
pub enum LaneCommand {
    /// Use this tunnel from now on, or none.
    Tunnel(TunnelOutState),
    /// Send this frame.
    Frame(Frame),
    /// Say goodbye to the peer and stop.
    Shutdown,
}

impl View for LaneCommand {
    type V = LaneCommandView;

    open spec fn view(&self) -> LaneCommandView {
        match self {
            LaneCommand::Tunnel(a) => LaneCommandView::Tunnel(a@),
            LaneCommand::Frame(a) => LaneCommandView::Frame(a@),
            LaneCommand::Shutdown => LaneCommandView::Shutdown,
        }
    }
}

impl DeepView for LaneCommand {
    type V = LaneCommandView;

    open spec fn deep_view(&self) -> LaneCommandView {
        self@
    }
}

/// The mathematical value of a [`OutgoingSide`].
pub ghost struct OutgoingSideView {
    pub out_tx: ChannelView<LaneCommandView>,
}

/// The handle through which a node talks to the sending side of a lane.
#[derive(Debug, PartialEq, Eq)]
pub struct OutgoingSide {
    pub out_tx: Channel<LaneCommand>,
}

impl View for OutgoingSide {
    type V = OutgoingSideView;

    open spec fn view(&self) -> OutgoingSideView {
        OutgoingSideView {
            out_tx: self.out_tx@,
        }
    }
}

impl DeepView for OutgoingSide {
    type V = OutgoingSideView;

    open spec fn deep_view(&self) -> OutgoingSideView {
        self@
    }
}

/// The mathematical value of a [`IncomingSide`].
pub ghost struct IncomingSideView {
    pub tunnel_receiver_rx: ChannelView<TunnelInStateView>,
    pub tunnel: TunnelInStateView,
}

/// The receiving side of a lane: the tunnel it reads from, and the tunnels that
/// wait to take its place.
#[derive(Debug, PartialEq, Eq)]
pub struct IncomingSide {
    pub tunnel_receiver_rx: Channel<TunnelInState>,
    pub tunnel: TunnelInState,
}

impl View for IncomingSide {
    type V = IncomingSideView;

    open spec fn view(&self) -> IncomingSideView {
        IncomingSideView {
            tunnel_receiver_rx: self.tunnel_receiver_rx@,
            tunnel: self.tunnel@,
        }
    }
}

impl DeepView for IncomingSide {
    type V = IncomingSideView;

    open spec fn deep_view(&self) -> IncomingSideView {
        self@
    }
}

/// The mathematical value of a [`LaneMiddle`].
pub ghost struct LaneMiddleView {
    pub tunnel: TunnelOutStateView,
    pub queue: Seq<FrameView>,
    pub closed: bool,
}

/// The sending side of a lane: the tunnel it writes to, and the frames that
/// wait for a tunnel.
#[derive(Debug, PartialEq, Eq)]
pub struct LaneMiddle {
    pub tunnel: TunnelOutState,
    pub queue: Vec<Frame>,
    pub closed: bool,
}

impl View for LaneMiddle {
    type V = LaneMiddleView;

    open spec fn view(&self) -> LaneMiddleView {
        LaneMiddleView {
            tunnel: self.tunnel@,
            queue: self.queue.deep_view(),
            closed: self.closed,
        }
    }
}

impl DeepView for LaneMiddle {
    type V = LaneMiddleView;

    open spec fn deep_view(&self) -> LaneMiddleView {
        self@
    }
}

impl LaneMiddleView {
    /// Whether a tunnel is attached that still takes frames.
    pub open spec fn attached(self) -> bool {
        self.tunnel matches TunnelOutStateView::Out(t) && !t.tx.closed
    }

    /// The lane after `frame` was handed to the tunnel or, without a tunnel
    /// that takes it, put at the end of the waiting frames. A tunnel that
    /// turns out to be closed is let go.
    pub open spec fn deliver(self, frame: FrameView) -> LaneMiddleView {
        match self.tunnel {
            TunnelOutStateView::Out(t) => if t.tx.closed {
                LaneMiddleView {
                    tunnel: TunnelOutStateView::Absent,
                    queue: self.queue.push(frame),
                    ..self
                }
            } else {
                LaneMiddleView {
                    tunnel: TunnelOutStateView::Out(
                        TunnelOutView {
                            tx: ChannelView { items: t.tx.items.push(frame), ..t.tx },
                            ..t
                        },
                    ),
                    ..self
                }
            },
            TunnelOutStateView::Absent => LaneMiddleView { queue: self.queue.push(frame), ..self },
        }
    }

    /// The lane after one command. A new tunnel takes the place of the old
    /// one and gets the waiting frames, oldest first. A lane that was shut
    /// down ignores every command.
    pub open spec fn process(self, command: LaneCommandView) -> LaneMiddleView {
        if self.closed {
            self
        } else {
            match command {
                LaneCommandView::Tunnel(TunnelOutStateView::Out(t)) => if t.tx.closed {
                    LaneMiddleView { tunnel: TunnelOutStateView::Absent, ..self }
                } else {
                    LaneMiddleView {
                        tunnel: TunnelOutStateView::Out(
                            TunnelOutView {
                                tx: ChannelView { items: t.tx.items + self.queue, ..t.tx },
                                ..t
                            },
                        ),
                        queue: Seq::empty(),
                        ..self
                    }
                },
                LaneCommandView::Tunnel(TunnelOutStateView::Absent) => LaneMiddleView {
                    tunnel: TunnelOutStateView::Absent,
                    ..self
                },
                LaneCommandView::Frame(frame) => self.deliver(frame),
                LaneCommandView::Shutdown => if self.attached() {
                    LaneMiddleView { closed: true, ..self.deliver(FrameView::Close) }
                } else {
                    LaneMiddleView { closed: true, ..self }
                },
            }
        }
    }

    /// Whether the command meets a tunnel that no longer takes frames.
    pub open spec fn meets_closed_tunnel(self, command: LaneCommandView) -> bool {
        !self.closed && match command {
            LaneCommandView::Tunnel(TunnelOutStateView::Out(t)) => t.tx.closed,
            LaneCommandView::Frame(_) => self.tunnel matches TunnelOutStateView::Out(t)
                && t.tx.closed,
            _ => false,
        }
    }

    /// The lane after the commands, taken in order.
    pub open spec fn process_all(self, commands: Seq<LaneCommandView>) -> LaneMiddleView
        decreases commands.len(),
    {
        if commands.len() == 0 {
            self
        } else {
            self.process(commands[0]).process_all(commands.drop_first())
        }
    }
}

impl LaneMiddle {
    /// A lane without a tunnel and without waiting frames.
    pub fn new() -> (r: Self)
        ensures
            r@ == (LaneMiddleView {
                tunnel: TunnelOutStateView::Absent,
                queue: Seq::empty(),
                closed: false,
            }),
    {
        let r = LaneMiddle { tunnel: TunnelOutState::Absent, queue: Vec::new(), closed: false };
        assert(r.queue.deep_view() =~= Seq::<FrameView>::empty());
        r
    }

    /// Hands `frame` to the tunnel or, without one that takes it, keeps it
    /// waiting.
    fn deliver(&mut self, frame: Frame) -> (r: Result<(), MeshError>)
        ensures
            final(self)@ == old(self)@.deliver(frame@),
            r == if old(self)@.tunnel matches TunnelOutStateView::Out(t) && t.tx.closed {
                Err::<(), MeshError>(MeshError::ChannelClosed)
            } else {
                Ok::<(), MeshError>(())
            },
    {
        let mut state = TunnelOutState::Absent;
        core::mem::swap(&mut state, &mut self.tunnel);
        match state {
            TunnelOutState::Out(mut tunnel) => {
                if tunnel.tx.closed {
                    self.queue.push(frame);
                    assert(self.queue.deep_view() =~= old(self).queue.deep_view().push(frame@));
                    Err(MeshError::ChannelClosed)
                } else {
                    let sent = tunnel.tx.send(frame);
                    self.tunnel = TunnelOutState::Out(tunnel);
                    Ok(())
                }
            },
            TunnelOutState::Absent => {
                self.queue.push(frame);
                assert(self.queue.deep_view() =~= old(self).queue.deep_view().push(frame@));
                Ok(())
            },
        }
    }

    /// Carries out one command. A tunnel that no longer takes frames is let
    /// go, the frames wait for the next one, and the caller is told that the
    /// channel was closed.
    pub fn process(&mut self, command: LaneCommand) -> (r: Result<(), MeshError>)
        ensures
            final(self)@ == old(self)@.process(command@),
            r == if old(self)@.meets_closed_tunnel(command@) {
                Err::<(), MeshError>(MeshError::ChannelClosed)
            } else {
                Ok::<(), MeshError>(())
            },
    {
        if self.closed {
            return Ok(());
        }
        match command {
            LaneCommand::Tunnel(TunnelOutState::Out(mut tunnel)) => {
                if tunnel.tx.closed {
                    self.tunnel = TunnelOutState::Absent;
                    Err(MeshError::ChannelClosed)
                } else {
                    let ghost before = tunnel.tx.items.deep_view();
                    tunnel.tx.items.append(&mut self.queue);
                    assert(tunnel.tx.items.deep_view() =~= before + old(self).queue.deep_view());
                    assert(self.queue.deep_view() =~= Seq::<FrameView>::empty());
                    self.tunnel = TunnelOutState::Out(tunnel);
                    Ok(())
                }
            },
            LaneCommand::Tunnel(TunnelOutState::Absent) => {
                self.tunnel = TunnelOutState::Absent;
                Ok(())
            },
            LaneCommand::Frame(frame) => self.deliver(frame),
            LaneCommand::Shutdown => {
                let attached = match &self.tunnel {
                    TunnelOutState::Out(tunnel) => !tunnel.tx.closed,
                    TunnelOutState::Absent => false,
                };
                if attached {
                    let sent = self.deliver(Frame::Close);
                }
                self.closed = true;
                Ok(())
            },
        }
    }

    /// Carries out the commands that wait in `rx`, in order. After a
    /// shutdown the rest is dropped and `rx` is closed.
    pub fn run(&mut self, rx: &mut Channel<LaneCommand>)
        ensures
            final(self)@ == old(self)@.process_all(old(rx)@.items),
            final(rx)@ == (ChannelView {
                items: Seq::<LaneCommandView>::empty(),
                closed: old(rx)@.closed || final(self)@.closed,
            }),
    {
        while !self.closed && rx.items.len() > 0
            invariant
                self@.process_all(rx@.items) == old(self)@.process_all(old(rx)@.items),
                rx@.closed == old(rx)@.closed,
            decreases rx@.items.len(),
        {
            let ghost before = self@;
            let ghost waiting = rx@.items;
            match rx.try_recv() {
                Received::Item(command) => {
                    let done = self.process(command);
                    assert(before.process_all(waiting) == self@.process_all(rx@.items));
                },
                _ => {},
            }
        }
        proof {
            if self.closed {
                lemma_closed_lane_ignores(self@, rx@.items);
            }
        }
        rx.items.clear();
        assert(rx.items.deep_view() =~= Seq::<LaneCommandView>::empty());
        if self.closed {
            rx.close();
        }
    }

    /// Takes the frames that were handed to the tunnel, for the transport to
    /// carry them.
    pub fn take_outbound(&mut self) -> (r: Vec<Frame>)
        ensures
            match old(self)@.tunnel {
                TunnelOutStateView::Out(t) => r.deep_view() == t.tx.items && final(self)@ == (
                LaneMiddleView {
                    tunnel: TunnelOutStateView::Out(
                        TunnelOutView { tx: ChannelView { items: Seq::empty(), ..t.tx }, ..t },
                    ),
                    ..old(self)@
                }),
                TunnelOutStateView::Absent => r.deep_view() == Seq::<FrameView>::empty()
                    && final(self)@ == old(self)@,
            },
    {
        let mut state = TunnelOutState::Absent;
        core::mem::swap(&mut state, &mut self.tunnel);
        let mut taken: Vec<Frame> = Vec::new();
        match state {
            TunnelOutState::Out(mut tunnel) => {
                core::mem::swap(&mut taken, &mut tunnel.tx.items);
                assert(tunnel.tx.items.deep_view() =~= Seq::<FrameView>::empty());
                self.tunnel = TunnelOutState::Out(tunnel);
            },
            TunnelOutState::Absent => {
                assert(taken.deep_view() =~= Seq::<FrameView>::empty());
            },
        }
        taken
    }
}

/// A lane that was shut down stays as it is, whatever it is told.
pub proof fn lemma_closed_lane_ignores(lane: LaneMiddleView, commands: Seq<LaneCommandView>)
    requires
        lane.closed,
    ensures
        lane.process_all(commands) == lane,
    decreases commands.len(),
{
    if commands.len() > 0 {
        lemma_closed_lane_ignores(lane, commands.drop_first());
    }
}

/// The commands that send the given frames, one command for each frame.
pub open spec fn frame_commands(frames: Seq<FrameView>) -> Seq<LaneCommandView> {
    Seq::new(frames.len(), |i: int| LaneCommandView::Frame(frames[i]))
}

/// Frames sent to a lane without a tunnel wait in the order they were sent.
pub proof fn lemma_frames_wait_in_order(lane: LaneMiddleView, frames: Seq<FrameView>)
    requires
        !lane.closed,
        lane.tunnel is Absent,
    ensures
        lane.process_all(frame_commands(frames)) == (LaneMiddleView {
            queue: lane.queue + frames,
            ..lane
        }),
    decreases frames.len(),
{
    let commands = frame_commands(frames);
    if frames.len() == 0 {
        assert(lane.queue + frames =~= lane.queue);
    } else {
        let next = lane.process(commands[0]);
        assert(commands.drop_first() =~= frame_commands(frames.drop_first()));
        lemma_frames_wait_in_order(next, frames.drop_first());
        assert(next.queue + frames.drop_first() =~= lane.queue + frames);
    }
}

/// Buffering keeps the order: frames sent to a lane that has no tunnel are
/// handed to the tunnel that is attached next, after what that tunnel
/// already holds, in the order they were sent.
pub proof fn lemma_buffered_frames_keep_order(
    lane: LaneMiddleView,
    frames: Seq<FrameView>,
    tunnel: TunnelOutView,
)
    requires
        !lane.closed,
        lane.tunnel is Absent,
        !tunnel.tx.closed,
    ensures
        lane.process_all(frame_commands(frames)).process(
            LaneCommandView::Tunnel(TunnelOutStateView::Out(tunnel)),
        ) == (LaneMiddleView {
            tunnel: TunnelOutStateView::Out(
                TunnelOutView {
                    tx: ChannelView {
                        items: tunnel.tx.items + lane.queue + frames,
                        closed: false,
                    },
                    ..tunnel
                },
            ),
            queue: Seq::empty(),
            closed: false,
        }),
{
    lemma_frames_wait_in_order(lane, frames);
    assert(tunnel.tx.items + (lane.queue + frames) =~= tunnel.tx.items + lane.queue + frames);
}

/// What a connector is told: to replace its tunnel by a fresh one, or to stop.
#[derive(Clone, Copy, Debug, PartialEq, Eq, Hash, Structural)]
pub enum ConnectorCommand {
    Reset,
    Close,
}

impl DeepView for ConnectorCommand {
    type V = ConnectorCommand;

    open spec fn deep_view(&self) -> ConnectorCommand {
        *self
    }
}

/// What a lane can signal.
#[derive(Clone, Copy, Debug, PartialEq, Eq, Hash, Structural)]
pub enum LaneSignal {
    Close,
}

/// The mathematical value of a [`ConnectorController`].
pub ghost struct ConnectorControllerView {
    pub command_tx: ChannelView<ConnectorCommand>,
}

/// The handle through which a connector is told what to do.
#[derive(Debug, PartialEq, Eq)]
pub struct ConnectorController {
    pub command_tx: Channel<ConnectorCommand>,
}

impl View for ConnectorController {
    type V = ConnectorControllerView;

    open spec fn view(&self) -> ConnectorControllerView {
        ConnectorControllerView {
            command_tx: self.command_tx@,
        }
    }
}

impl DeepView for ConnectorController {
    type V = ConnectorControllerView;

    open spec fn deep_view(&self) -> ConnectorControllerView {
        self@
    }
}

/// The mathematical value of a [`ProtoLaneEndpoint`].
pub ghost struct ProtoLaneEndpointView {
    pub remote_star: Option<StarKeyView>,
    pub incoming: IncomingSideView,
    pub outgoing: OutgoingSideView,
    pub key_requestor: bool,
}

/// The end of a lane whose neighbour may not be known yet.
#[derive(Debug, PartialEq, Eq)]
pub struct ProtoLaneEndpoint {
    pub remote_star: Option<StarKey>,
    pub incoming: IncomingSide,
    pub outgoing: OutgoingSide,
    pub key_requestor: bool,
}

impl View for ProtoLaneEndpoint {
    type V = ProtoLaneEndpointView;

    open spec fn view(&self) -> ProtoLaneEndpointView {
        ProtoLaneEndpointView {
            remote_star: self.remote_star.deep_view(),
            incoming: self.incoming@,
            outgoing: self.outgoing@,
            key_requestor: self.key_requestor,
        }
    }
}

impl DeepView for ProtoLaneEndpoint {
    type V = ProtoLaneEndpointView;

    open spec fn deep_view(&self) -> ProtoLaneEndpointView {
        self@
    }
}

/// The mathematical value of a [`LaneEndpoint`].
pub ghost struct LaneEndpointView {
    pub remote_star: StarKeyView,
    pub incoming: IncomingSideView,
    pub outgoing: OutgoingSideView,
}

/// The end of a lane to a known neighbour.
#[derive(Debug, PartialEq, Eq)]
pub struct LaneEndpoint {
    pub remote_star: StarKey,
    pub incoming: IncomingSide,
    pub outgoing: OutgoingSide,
}

impl View for LaneEndpoint {
    type V = LaneEndpointView;

    open spec fn view(&self) -> LaneEndpointView {
        LaneEndpointView {
            remote_star: self.remote_star@,
            incoming: self.incoming@,
            outgoing: self.outgoing@,
        }
    }
}

impl DeepView for LaneEndpoint {
    type V = LaneEndpointView;

    open spec fn deep_view(&self) -> LaneEndpointView {
        self@
    }
}

impl IncomingSideView {
    /// What the next attempt to receive finds, and the side after it. A
    /// frame of the tunnel is handed on. A tunnel that has ended is let go and
    /// reported as a `Close` frame, and so is the end of the tunnels
    /// themselves. Without a tunnel the next waiting one is taken.
    pub open spec fn recv(self) -> (IncomingSideView, Option<FrameView>)
        decreases self.tunnel_receiver_rx.items.len(),
    {
        match self.tunnel {
            TunnelInStateView::In(t) => if t.rx.items.len() > 0 {
                (
                    IncomingSideView {
                        tunnel: TunnelInStateView::In(
                            TunnelInView {
                                rx: ChannelView { items: t.rx.items.drop_first(), ..t.rx },
                                ..t
                            },
                        ),
                        ..self
                    },
                    Some(t.rx.items[0]),
                )
            } else if t.rx.closed {
                (
                    IncomingSideView { tunnel: TunnelInStateView::Absent, ..self },
                    Some(FrameView::Close),
                )
            } else {
                (self, None)
            },
            TunnelInStateView::Absent => if self.tunnel_receiver_rx.items.len() > 0 {
                (IncomingSideView {
                    tunnel: self.tunnel_receiver_rx.items[0],
                    tunnel_receiver_rx: ChannelView {
                        items: self.tunnel_receiver_rx.items.drop_first(),
                        ..self.tunnel_receiver_rx
                    },
                }).recv()
            } else if self.tunnel_receiver_rx.closed {
                (self, Some(FrameView::Close))
            } else {
                (self, None)
            },
        }
    }
}

impl IncomingSide {
    /// A receiving side without a tunnel.
    pub fn new() -> (r: Self)
        ensures
            r@ == (IncomingSideView {
                tunnel_receiver_rx: ChannelView { items: Seq::empty(), closed: false },
                tunnel: TunnelInStateView::Absent,
            }),
    {
        IncomingSide { tunnel_receiver_rx: Channel::new(), tunnel: TunnelInState::Absent }
    }

    /// The next command for the node, if one is ready: see
    /// [`IncomingSideView::recv`].
    pub fn recv(&mut self) -> (r: Option<StarCommand>)
        ensures
            final(self)@ == old(self)@.recv().0,
            r.deep_view() == match old(self)@.recv().1 {
                Some(frame) => Some(StarCommandView::Frame(frame)),
                None => None,
            },
    {
        loop
            invariant
                self@.recv() == old(self)@.recv(),
            decreases self@.tunnel_receiver_rx.items.len(),
        {
            let mut state = TunnelInState::Absent;
            core::mem::swap(&mut state, &mut self.tunnel);
            match state {
                TunnelInState::In(mut tunnel) => {
                    match tunnel.rx.try_recv() {
                        Received::Item(frame) => {
                            self.tunnel = TunnelInState::In(tunnel);
                            return Some(StarCommand::Frame(frame));
                        },
                        Received::Closed => {
                            return Some(StarCommand::Frame(Frame::Close));
                        },
                        Received::Empty => {
                            self.tunnel = TunnelInState::In(tunnel);
                            return None;
                        },
                    }
                },
                TunnelInState::Absent => {
                    match self.tunnel_receiver_rx.try_recv() {
                        Received::Item(tunnel) => {
                            self.tunnel = tunnel;
                        },
                        Received::Closed => {
                            return Some(StarCommand::Frame(Frame::Close));
                        },
                        Received::Empty => {
                            return None;
                        },
                    }
                },
            }
        }
    }
}

impl OutgoingSide {
    /// A handle with no command waiting.
    pub fn new() -> (r: Self)
        ensures
            r@ == (OutgoingSideView { out_tx: ChannelView { items: Seq::empty(), closed: false } }),
    {
        OutgoingSide { out_tx: Channel::new() }
    }
}

/// Holds one value, or nothing.
#[derive(Debug, PartialEq, Eq)]
pub struct Chamber<T> {
    pub holding: Option<T>,
}

impl<T> Chamber<T> {
    /// An empty chamber.
    pub fn new() -> (r: Self)
        ensures
            r.holding.is_none(),
    {
        Chamber { holding: None }
    }
}

/// What every end of a lane can tell: the star at the far end, if it is
/// known.
pub trait AbstractLaneEndpoint: Sized {
    /// The star at the far end, if it is known.
    spec fn spec_remote_star(&self) -> Option<StarKeyView>;

    /// The star at the far end, if it is known.
    fn get_remote_star(&self) -> (r: Option<StarKey>)
        ensures
            r.deep_view() == self.spec_remote_star(),
    ;
}

impl AbstractLaneEndpoint for ProtoLaneEndpoint {
    open spec fn spec_remote_star(&self) -> Option<StarKeyView> {
        self@.remote_star
    }

    fn get_remote_star(&self) -> (r: Option<StarKey>) {
        self.remote_star.clone()
    }
}

impl AbstractLaneEndpoint for LaneEndpoint {
    open spec fn spec_remote_star(&self) -> Option<StarKeyView> {
        Some(self@.remote_star)
    }

    fn get_remote_star(&self) -> (r: Option<StarKey>) {
        Some(self.remote_star.clone())
    }
}

impl ProtoLaneEndpoint {
    /// The end of a new lane to `star_key`, with nothing sent and nothing
    /// received.
    pub fn new(star_key: Option<StarKey>) -> (r: Self)
        ensures
            r@ == (ProtoLaneEndpointView {
                remote_star: star_key.deep_view(),
                incoming: IncomingSideView {
                    tunnel_receiver_rx: ChannelView { items: Seq::empty(), closed: false },
                    tunnel: TunnelInStateView::Absent,
                },
                outgoing: OutgoingSideView {
                    out_tx: ChannelView { items: Seq::empty(), closed: false },
                },
                key_requestor: false,
            }),
    {
        ProtoLaneEndpoint {
            remote_star: star_key,
            incoming: IncomingSide::new(),
            outgoing: OutgoingSide::new(),
            key_requestor: false,
        }
    }

    /// The end of a lane to a known neighbour. An end whose neighbour is not
    /// known yet cannot become one, and the error says so.
    pub fn evolve(self) -> (r: Result<LaneEndpoint, Error>)
        ensures
            match self@.remote_star {
                Some(star) => r is Ok && r->Ok_0@ == (LaneEndpointView {
                    remote_star: star,
                    incoming: self@.incoming,
                    outgoing: self@.outgoing,
                }),
                None => r is Err && r->Err_0@.error
                    == "star_key must be set before ProtoLaneEndpoint can evolve into a LaneEndpoint"@,
            },
    {
        match self.remote_star {
            Some(remote_star) => Ok(
                LaneEndpoint { remote_star, incoming: self.incoming, outgoing: self.outgoing },
            ),
            None => Err(
                Error::new(
                    "star_key must be set before ProtoLaneEndpoint can evolve into a LaneEndpoint",
                ),
            ),
        }
    }
}

/// The key under which a lane caches the hops to a star: the subgraph path
/// with the index at its end.
pub open spec fn key_path(star: StarKeyView) -> Seq<u16> {
    star.subgraph.push(star.index)
}

/// No two stars share a cache key.
pub proof fn lemma_key_path_tells_stars_apart(a: StarKeyView, b: StarKeyView)
    requires
        key_path(a) == key_path(b),
    ensures
        a == b,
{
    assert(key_path(a).drop_last() =~= a.subgraph);
    assert(key_path(b).drop_last() =~= b.subgraph);
    assert(key_path(a).last() == a.index);
    assert(key_path(b).last() == b.index);
}

/// The cache key of `star`.
pub fn star_path(star: &StarKey) -> (r: Vec<u16>)
    ensures
        r@ == key_path(star@),
{
    let mut path = star.subgraph.clone();
    assert(path@ =~= star.subgraph@);
    path.push(star.index);
    path
}

/// The hops to `star` through a lane to `remote` that has cached `paths`: 1
/// where the star is the neighbour itself, else what the cache holds.
pub open spec fn hops_through(
    remote: Option<StarKeyView>,
    paths: Seq<(Seq<u16>, usize)>,
    star: StarKeyView,
) -> Option<usize> {
    if remote == Some(star) {
        Some(1)
    } else {
        cached_hops(paths, key_path(star))
    }
}

/// The cache of a lane to `remote` after it was asked for the hops to `star`:
/// the neighbour itself is never looked up.
pub open spec fn paths_after_lookup(
    remote: Option<StarKeyView>,
    paths: Seq<(Seq<u16>, usize)>,
    star: StarKeyView,
) -> Seq<(Seq<u16>, usize)> {
    if remote == Some(star) {
        paths
    } else {
        entries_after_get(paths, key_path(star))
    }
}

/// A lane together with the hop counts that were learned through it.
pub struct LaneMeta<L: AbstractLaneEndpoint> {
    pub star_paths: lru::LruCache<Vec<u16>, usize>,
    pub lane: L,
}

impl<L: AbstractLaneEndpoint> LaneMeta<L> {
    /// The cached hop counts by cache key, the most recently used first.
    pub open spec fn paths(&self) -> Seq<(Seq<u16>, usize)> {
        cache_entries(self.star_paths)
    }

    /// The number of hop counts that the lane remembers at most.
    pub open spec fn limit(&self) -> nat {
        cache_limit(self.star_paths)
    }

    /// The hops to `star` through this lane, if they are known.
    pub open spec fn spec_hops(&self, star: StarKeyView) -> Option<usize> {
        hops_through(self.lane.spec_remote_star(), self.paths(), star)
    }

    /// The lane, with no hop count learned yet.
    pub fn new(lane: L) -> (r: Self)
        ensures
            r.lane == lane,
            r.paths() == Seq::<(Seq<u16>, usize)>::empty(),
            r.limit() == HOP_CACHE_LIMIT,
    {
        LaneMeta { star_paths: cache_new(HOP_CACHE_LIMIT), lane }
    }

    /// The cache of hop counts, to be worked on in place.
    pub fn star_paths(&mut self) -> (r: &mut lru::LruCache<Vec<u16>, usize>)
        ensures
            *r == old(self).star_paths,
            final(self).star_paths == *final(r),
            final(self).lane == old(self).lane,
    {
        &mut self.star_paths
    }

    /// The lane itself.
    pub fn unwrap(self) -> (r: L)
        ensures
            r == self.lane,
    {
        self.lane
    }

    /// The hops to `star` through this lane: always 1 for the neighbour
    /// itself, else what was learned last, if anything. Looking a star up
    /// makes it the most recently used entry.
    pub fn get_hops_to_star(&mut self, star: &StarKey) -> (r: Option<usize>)
        ensures
            r == old(self).spec_hops(star@),
            final(self).lane == old(self).lane,
            final(self).limit() == old(self).limit(),
            final(self).paths() == paths_after_lookup(
                old(self).lane.spec_remote_star(),
                old(self).paths(),
                star@,
            ),
    {
        match self.lane.get_remote_star() {
            Some(remote) => {
                if remote.same(star) {
                    return Some(1);
                }
            },
            None => {},
        }
        let key = star_path(star);
        cache_get(&mut self.star_paths, &key)
    }

    /// Remembers that `star` is `hops` hops away through this lane, in place
    /// of what was known before. Where the cache is full, the least recently
    /// used star is forgotten.
    pub fn set_hops_to_star(&mut self, star: StarKey, hops: usize)
        ensures
            final(self).lane == old(self).lane,
            final(self).limit() == old(self).limit(),
            final(self).paths() == entries_after_put(
                old(self).paths(),
                old(self).limit(),
                key_path(star@),
                hops,
            ),
    {
        let key = star_path(&star);
        let previous = cache_put(&mut self.star_paths, key, hops);
    }
}

/// What was set is what is found: after the hops to a star were set on a lane
/// that remembers anything at all, the lane reports them, unless the star is
/// the neighbour itself, which is 1 hop away whatever was set.
pub proof fn lemma_set_hops_then_get(
    remote: Option<StarKeyView>,
    paths: Seq<(Seq<u16>, usize)>,
    limit: nat,
    star: StarKeyView,
    hops: usize,
)
    requires
        limit > 0,
    ensures
        hops_through(remote, entries_after_put(paths, limit, key_path(star), hops), star) == if remote
            == Some(star) {
            Some(1usize)
        } else {
            Some(hops)
        },
{
    lemma_put_then_cached(paths, limit, key_path(star), hops);
}

/// The neighbour of a lane is 1 hop away, whatever the cache holds.
pub proof fn lemma_neighbour_is_one_hop(
    remote: Option<StarKeyView>,
    paths: Seq<(Seq<u16>, usize)>,
    star: StarKeyView,
)
    requires
        remote == Some(star),
    ensures
        hops_through(remote, paths, star) == Some(1usize),
{
}

/// Asking a lane for the hops to one star changes what it reports for no
/// star.
pub proof fn lemma_lookup_keeps_hops(
    remote: Option<StarKeyView>,
    paths: Seq<(Seq<u16>, usize)>,
    asked: StarKeyView,
    star: StarKeyView,
)
    ensures
        hops_through(remote, paths_after_lookup(remote, paths, asked), star) == hops_through(
            remote,
            paths,
            star,
        ),
{
    lemma_get_keeps_hops(paths, key_path(asked), key_path(star));
}

/// A lane of either kind.
pub enum LaneWrapper {
    Proto(LaneMeta<ProtoLaneEndpoint>),
    Lane(LaneMeta<LaneEndpoint>),
}

impl LaneWrapper {
    /// The star at the far end, if it is known.
    pub open spec fn spec_remote_star(&self) -> Option<StarKeyView> {
        match self {
            LaneWrapper::Proto(lane) => lane.lane.spec_remote_star(),
            LaneWrapper::Lane(lane) => lane.lane.spec_remote_star(),
        }
    }

    /// The cached hop counts of the lane.
    pub open spec fn paths(&self) -> Seq<(Seq<u16>, usize)> {
        match self {
            LaneWrapper::Proto(lane) => lane.paths(),
            LaneWrapper::Lane(lane) => lane.paths(),
        }
    }

    /// The number of hop counts that the lane remembers at most.
    pub open spec fn limit(&self) -> nat {
        match self {
            LaneWrapper::Proto(lane) => lane.limit(),
            LaneWrapper::Lane(lane) => lane.limit(),
        }
    }

    /// The cache of hop counts of the lane, to be worked on in place.
    pub fn star_paths(&mut self) -> (r: &mut lru::LruCache<Vec<u16>, usize>)
        ensures
            cache_entries(*r) == old(self).paths(),
            cache_limit(*r) == old(self).limit(),
            match (*old(self), *final(self)) {
                (LaneWrapper::Proto(before), LaneWrapper::Proto(after)) => after.star_paths
                    == *final(r) && after.lane == before.lane,
                (LaneWrapper::Lane(before), LaneWrapper::Lane(after)) => after.star_paths
                    == *final(r) && after.lane == before.lane,
                _ => false,
            },
    {
        match self {
            LaneWrapper::Proto(meta) => meta.star_paths(),
            LaneWrapper::Lane(meta) => meta.star_paths(),
        }
    }

    /// The handle of the sending side of the lane, to be worked on in
    /// place.
    pub fn outgoing(&mut self) -> (r: &mut OutgoingSide)
        ensures
            match (*old(self), *final(self)) {
                (LaneWrapper::Proto(before), LaneWrapper::Proto(after)) => *r
                    == before.lane.outgoing && after.star_paths == before.star_paths && after.lane
                    == (ProtoLaneEndpoint { outgoing: *final(r), ..before.lane }),
                (LaneWrapper::Lane(before), LaneWrapper::Lane(after)) => *r == before.lane.outgoing
                    && after.star_paths == before.star_paths && after.lane == (LaneEndpoint {
                    outgoing: *final(r),
                    ..before.lane
                }),
                _ => false,
            },
    {
        match self {
            LaneWrapper::Proto(lane) => &mut lane.lane.outgoing,
            LaneWrapper::Lane(lane) => &mut lane.lane.outgoing,
        }
    }

    /// The receiving side of the lane, to be worked on in place.
    pub fn incoming(&mut self) -> (r: &mut IncomingSide)
        ensures
            match (*old(self), *final(self)) {
                (LaneWrapper::Proto(before), LaneWrapper::Proto(after)) => *r
                    == before.lane.incoming && after.star_paths == before.star_paths && after.lane
                    == (ProtoLaneEndpoint { incoming: *final(r), ..before.lane }),
                (LaneWrapper::Lane(before), LaneWrapper::Lane(after)) => *r == before.lane.incoming
                    && after.star_paths == before.star_paths && after.lane == (LaneEndpoint {
                    incoming: *final(r),
                    ..before.lane
                }),
                _ => false,
            },
    {
        match self {
            LaneWrapper::Proto(lane) => &mut lane.lane.incoming,
            LaneWrapper::Lane(lane) => &mut lane.lane.incoming,
        }
    }

    /// The lane whose neighbour may not be known yet.
    pub fn expect_proto_lane(self) -> (r: LaneMeta<ProtoLaneEndpoint>)
        requires
            self is Proto,
        ensures
            self == LaneWrapper::Proto(r),
    {
        match self {
            LaneWrapper::Proto(lane) => lane,
            LaneWrapper::Lane(_) => vstd::pervasive::unreached(),
        }
    }

    /// The lane to a known neighbour.
    pub fn expect_lane(self) -> (r: LaneMeta<LaneEndpoint>)
        requires
            self is Lane,
        ensures
            self == LaneWrapper::Lane(r),
    {
        match self {
            LaneWrapper::Lane(lane) => lane,
            LaneWrapper::Proto(_) => vstd::pervasive::unreached(),
        }
    }

    /// Names the neighbour of a lane whose neighbour is not known yet. The
    /// neighbour of a lane, once it is known, never changes.
    pub fn set_remote_star(&mut self, remote_star: StarKey)
        ensures
            final(self).paths() == old(self).paths(),
            final(self).limit() == old(self).limit(),
            (*final(self) is Proto) == (*old(self) is Proto),
            final(self).spec_remote_star() == match old(self).spec_remote_star() {
                Some(known) => Some(known),
                None => Some(remote_star@),
            },
            match (*old(self), *final(self)) {
                (LaneWrapper::Proto(before), LaneWrapper::Proto(after)) => after.lane@ == (
                ProtoLaneEndpointView {
                    remote_star: final(self).spec_remote_star(),
                    ..before.lane@
                }),
                _ => *final(self) == *old(self),
            },
    {
        match self {
            LaneWrapper::Proto(lane) => {
                if lane.lane.remote_star.is_none() {
                    lane.lane.remote_star = Some(remote_star);
                }
            },
            LaneWrapper::Lane(_) => {},
        }
    }

    /// The star at the far end, if it is known.
    pub fn get_remote_star(&self) -> (r: Option<StarKey>)
        ensures
            r.deep_view() == self.spec_remote_star(),
    {
        match self {
            LaneWrapper::Proto(lane) => lane.lane.get_remote_star(),
            LaneWrapper::Lane(lane) => lane.lane.get_remote_star(),
        }
    }

    /// The hops to `star` through this lane: see
    /// [`LaneMeta::get_hops_to_star`].
    pub fn get_hops_to_star(&mut self, star: &StarKey) -> (r: Option<usize>)
        ensures
            r == hops_through(old(self).spec_remote_star(), old(self).paths(), star@),
            final(self).spec_remote_star() == old(self).spec_remote_star(),
            final(self).limit() == old(self).limit(),
            final(self).paths() == paths_after_lookup(
                old(self).spec_remote_star(),
                old(self).paths(),
                star@,
            ),
            (*final(self) is Proto) == (*old(self) is Proto),
    {
        match self {
            LaneWrapper::Proto(lane) => lane.get_hops_to_star(star),
            LaneWrapper::Lane(lane) => lane.get_hops_to_star(star),
        }
    }

    /// Remembers the hops to `star` through this lane: see
    /// [`LaneMeta::set_hops_to_star`].
    pub fn set_hops_to_star(&mut self, star: StarKey, hops: usize)
        ensures
            final(self).spec_remote_star() == old(self).spec_remote_star(),
            final(self).limit() == old(self).limit(),
            final(self).paths() == entries_after_put(
                old(self).paths(),
                old(self).limit(),
                key_path(star@),
                hops,
            ),
            (*final(self) is Proto) == (*old(self) is Proto),
    {
        match self {
            LaneWrapper::Proto(lane) => lane.set_hops_to_star(star, hops),
            LaneWrapper::Lane(lane) => lane.set_hops_to_star(star, hops),
        }
    }
}

/// The mathematical value of a [`LaneIndex`].
pub ghost enum LaneIndexView {
    Unassigned,
    Lane(StarKeyView),
    ProtoLane(usize),
}

/// Where a node keeps a lane: under the key of its neighbour, or, while the
/// neighbour is not known, under a number.
#[derive(Debug, PartialEq, Eq)]
pub enum LaneIndex {
    Unassigned,
    Lane(StarKey),
    ProtoLane(usize),
}

impl View for LaneIndex {
    type V = LaneIndexView;

    open spec fn view(&self) -> LaneIndexView {
        match self {
            LaneIndex::Unassigned => LaneIndexView::Unassigned,
            LaneIndex::Lane(a) => LaneIndexView::Lane(a@),
            LaneIndex::ProtoLane(a) => LaneIndexView::ProtoLane(*a),
        }
    }
}

impl DeepView for LaneIndex {
    type V = LaneIndexView;

    open spec fn deep_view(&self) -> LaneIndexView {
        self@
    }
}

impl Clone for LaneIndex {
    fn clone(&self) -> (r: Self)
        ensures
            r@ == self@,
    {
        match self {
            LaneIndex::Unassigned => LaneIndex::Unassigned,
            LaneIndex::Lane(a) => LaneIndex::Lane(a.clone()),
            LaneIndex::ProtoLane(a) => LaneIndex::ProtoLane(*a),
        }
    }
}

impl LaneIndex {
    /// The number of a lane whose neighbour is not known yet.
    pub fn expect_proto_lane(&self) -> (r: Result<usize, Error>)
        ensures
            match self@ {
                LaneIndexView::ProtoLane(index) => r == Ok::<usize, Error>(index),
                _ => r is Err && r->Err_0@.error == "expected proto lane"@,
            },
    {
        match self {
            LaneIndex::ProtoLane(index) => Ok(*index),
            _ => Err(Error::new("expected proto lane")),
        }
    }

    /// The neighbour of a lane to a known star.
    pub fn expect_lane(&self) -> (r: Result<StarKey, Error>)
        ensures
            match self@ {
                LaneIndexView::Lane(key) => r is Ok && r->Ok_0@ == key,
                _ => r is Err && r->Err_0@.error == "expected lane"@,
            },
    {
        match self {
            LaneIndex::Lane(key) => Ok(key.clone()),
            _ => Err(Error::new("expected lane")),
        }
    }

    /// Whether the lane leads to a known star.
    pub fn is_lane(&self) -> (r: bool)
        ensures
            r == (self@ is Lane),
    {
        match self {
            LaneIndex::Lane(_) => true,
            _ => false,
        }
    }
}

/// The mathematical value of a [`ConnectionKind`].
pub ghost enum ConnectionKindView {
    Starlane,
    Url(Seq<char>),
}

/// How a star is reached: inside this process, or at a URL.
#[derive(Debug, PartialEq, Eq, PartialOrd, Ord)]
pub enum ConnectionKind {
    Starlane,
    Url(String),
}

impl View for ConnectionKind {
    type V = ConnectionKindView;

    open spec fn view(&self) -> ConnectionKindView {
        match self {
            ConnectionKind::Starlane => ConnectionKindView::Starlane,
            ConnectionKind::Url(a) => ConnectionKindView::Url(a@),
        }
    }
}

impl DeepView for ConnectionKind {
    type V = ConnectionKindView;

    open spec fn deep_view(&self) -> ConnectionKindView {
        self@
    }
}

impl Clone for ConnectionKind {
    fn clone(&self) -> (r: Self)
        ensures
            r@ == self@,
    {
        match self {
            ConnectionKind::Starlane => ConnectionKind::Starlane,
            ConnectionKind::Url(a) => ConnectionKind::Url(a.clone()),
        }
    }
}

/// The mathematical value of a [`ConnectionInfo`].
pub ghost struct ConnectionInfoView {
    pub gateway: StarKeyView,
    pub kind: ConnectionKindView,
}

/// The gateway of a constellation and the way to reach it.
#[derive(Debug, PartialEq, Eq, PartialOrd, Ord)]
pub struct ConnectionInfo {
    pub gateway: StarKey,
    pub kind: ConnectionKind,
}

impl View for ConnectionInfo {
    type V = ConnectionInfoView;

    open spec fn view(&self) -> ConnectionInfoView {
        ConnectionInfoView {
            gateway: self.gateway@,
            kind: self.kind@,
        }
    }
}

impl DeepView for ConnectionInfo {
    type V = ConnectionInfoView;

    open spec fn deep_view(&self) -> ConnectionInfoView {
        self@
    }
}

impl Clone for ConnectionInfo {
    fn clone(&self) -> (r: Self)
        ensures
            r@ == self@,
    {
        let r = ConnectionInfo {
            gateway: self.gateway.clone(),
            kind: self.kind.clone(),
        };
        r
    }
}

impl TunnelInStateView {
    /// The receiving half after `frame` arrived on it; without a tunnel, or
    /// on a tunnel that has ended, the frame is lost.
    pub open spec fn arrived(self, frame: FrameView) -> TunnelInStateView {
        match self {
            TunnelInStateView::In(t) => if t.rx.closed {
                self
            } else {
                TunnelInStateView::In(
                    TunnelInView {
                        rx: ChannelView { items: t.rx.items.push(frame), ..t.rx },
                        ..t
                    },
                )
            },
            TunnelInStateView::Absent => self,
        }
    }

    /// Whether a frame that arrives is taken.
    pub open spec fn takes_frames(self) -> bool {
        self matches TunnelInStateView::In(t) && !t.rx.closed
    }
}

impl IncomingSideView {
    /// The receiving side after the transport brought `frame`: the frame
    /// belongs to the tunnel that was attached last, which is the last of
    /// the tunnels that wait or, if none waits, the tunnel in use.
    pub open spec fn arrive(self, frame: FrameView) -> IncomingSideView {
        let waiting = self.tunnel_receiver_rx.items;
        if waiting.len() > 0 {
            IncomingSideView {
                tunnel_receiver_rx: ChannelView {
                    items: waiting.update(waiting.len() - 1, waiting.last().arrived(frame)),
                    ..self.tunnel_receiver_rx
                },
                ..self
            }
        } else {
            IncomingSideView { tunnel: self.tunnel.arrived(frame), ..self }
        }
    }

    /// Whether a frame that the transport brings is taken.
    pub open spec fn takes_frames(self) -> bool {
        if self.tunnel_receiver_rx.items.len() > 0 {
            self.tunnel_receiver_rx.items.last().takes_frames()
        } else {
            self.tunnel.takes_frames()
        }
    }
}

impl TunnelInState {
    /// Takes a frame that arrived: see [`TunnelInStateView::arrived`].
    pub fn arrived(&mut self, frame: Frame) -> (r: Result<(), MeshError>)
        ensures
            final(self)@ == old(self)@.arrived(frame@),
            r == if old(self)@.takes_frames() {
                Ok::<(), MeshError>(())
            } else {
                Err::<(), MeshError>(MeshError::ChannelClosed)
            },
    {
        let mut state = TunnelInState::Absent;
        core::mem::swap(&mut state, self);
        match state {
            TunnelInState::In(mut tunnel) => {
                let taken = tunnel.rx.send(frame);
                *self = TunnelInState::In(tunnel);
                taken
            },
            TunnelInState::Absent => Err(MeshError::ChannelClosed),
        }
    }
}

impl IncomingSide {
    /// Takes a frame that the transport brought: see
    /// [`IncomingSideView::arrive`]. A frame for which there is no tunnel is
    /// lost, and the caller is told that the channel was closed.
    pub fn arrive(&mut self, frame: Frame) -> (r: Result<(), MeshError>)
        ensures
            final(self)@ == old(self)@.arrive(frame@),
            r == if old(self)@.takes_frames() {
                Ok::<(), MeshError>(())
            } else {
                Err::<(), MeshError>(MeshError::ChannelClosed)
            },
    {
        match self.tunnel_receiver_rx.items.pop() {
            Some(mut last) => {
                let ghost before = old(self).tunnel_receiver_rx.items.deep_view();
                let ghost rest = self.tunnel_receiver_rx.items.deep_view();
                assert(rest =~= before.drop_last());
                assert(last@ == before.last());
                let taken = last.arrived(frame);
                self.tunnel_receiver_rx.items.push(last);
                assert(self.tunnel_receiver_rx.items.deep_view() =~= before.update(
                    before.len() - 1,
                    before.last().arrived(frame@),
                ));
                taken
            },
            None => self.tunnel.arrived(frame),
        }
    }
}

impl TunnelInStateView {
    /// The receiving half after its tunnel has ended: what arrived can
    /// still be read, nothing more arrives.
    pub open spec fn ended(self) -> TunnelInStateView {
        match self {
            TunnelInStateView::In(t) => TunnelInStateView::In(
                TunnelInView { rx: ChannelView { closed: true, ..t.rx }, ..t },
            ),
            TunnelInStateView::Absent => self,
        }
    }
}

impl IncomingSideView {
    /// The receiving side after the tunnel that was attached last has
    /// ended.
    pub open spec fn ended(self) -> IncomingSideView {
        let waiting = self.tunnel_receiver_rx.items;
        if waiting.len() > 0 {
            IncomingSideView {
                tunnel_receiver_rx: ChannelView {
                    items: waiting.update(waiting.len() - 1, waiting.last().ended()),
                    ..self.tunnel_receiver_rx
                },
                ..self
            }
        } else {
            IncomingSideView { tunnel: self.tunnel.ended(), ..self }
        }
    }
}

impl TunnelInState {
    /// Notes that the tunnel has ended: see [`TunnelInStateView::ended`].
    pub fn end(&mut self)
        ensures
            final(self)@ == old(self)@.ended(),
    {
        let mut state = TunnelInState::Absent;
        core::mem::swap(&mut state, self);
        match state {
            TunnelInState::In(mut tunnel) => {
                tunnel.rx.close();
                *self = TunnelInState::In(tunnel);
            },
            TunnelInState::Absent => {},
        }
    }
}

impl IncomingSide {
    /// Notes that the tunnel that was attached last has ended: see
    /// [`IncomingSideView::ended`].
    pub fn end_tunnel(&mut self)
        ensures
            final(self)@ == old(self)@.ended(),
    {
        match self.tunnel_receiver_rx.items.pop() {
            Some(mut last) => {
                let ghost before = old(self).tunnel_receiver_rx.items.deep_view();
                let ghost rest = self.tunnel_receiver_rx.items.deep_view();
                assert(rest =~= before.drop_last());
                assert(last@ == before.last());
                last.end();
                self.tunnel_receiver_rx.items.push(last);
                assert(self.tunnel_receiver_rx.items.deep_view() =~= before.update(
                    before.len() - 1,
                    before.last().ended(),
                ));
            },
            None => {
                self.tunnel.end();
            },
        }
    }
}

} // verus!
