//! Connectors, which keep a lane supplied with tunnels, and the codec that
//! puts frames on the wire.

use vstd::prelude::*;
use crate::channel::ChannelView;
use crate::error::{Error, MeshError};
use crate::frame::{FrameView, ProtoFrameView};
use crate::lane::{
    ConnectorCommand, IncomingSideView, LaneCommand, LaneCommandView, OutgoingSideView,
    ProtoLaneEndpoint, ProtoLaneEndpointView, TunnelIn, TunnelInState, TunnelInStateView,
    TunnelInView, TunnelOut, TunnelOutState, TunnelOutStateView, TunnelOutView,
    RECONNECT_DELAY_SECONDS, STARLANE_PROTOCOL_VERSION,
};
use crate::proto::{
    lemma_fresh_tunnel_opens, local_tunnels, opening_frames, HandshakeStateView, ProtoTunnel,
    ProtoTunnelView,
};
use crate::star::{StarKey, StarKeyView};

verus! {

/// Where a connector stands in its loop.
#[derive(Clone, Copy, Debug, PartialEq, Eq, Hash, Structural)]
pub enum ConnectorState {
    /// The connector has no tunnel and is to try for one.
    Connecting,
    /// The lane has the tunnel of the connector; the connector waits to be told what to do.
    Connected,
    /// The connector has stopped.
    Closed,
}

/// What a connector does next.
#[derive(Clone, Copy, Debug, PartialEq, Eq, Hash, Structural)]
pub enum ConnectorStep {
    /// Try for a tunnel now.
    Attempt,
    /// Wait this many seconds, then try for a tunnel.
    Retry(u64),
    /// Wait for a command.
    Await,
    /// End the loop.
    Stop,
}

/// What can supply a lane with tunnels, again and again, until it is told to
/// stop.
pub trait TunnelConnector {

}

impl ProtoLaneEndpointView {
    /// The lane after its sending side was given `command`; a sending side
    /// that is gone takes nothing.
    pub open spec fn told(self, command: LaneCommandView) -> ProtoLaneEndpointView {
        if self.outgoing.out_tx.closed {
            self
        } else {
            ProtoLaneEndpointView {
                outgoing: OutgoingSideView {
                    out_tx: ChannelView {
                        items: self.outgoing.out_tx.items.push(command),
                        ..self.outgoing.out_tx
                    },
                },
                ..self
            }
        }
    }

    /// The lane after the receiving half `tunnel` was queued for its
    /// receiving side; a receiving side that is gone takes nothing.
    pub open spec fn given(self, tunnel: TunnelInStateView) -> ProtoLaneEndpointView {
        if self.incoming.tunnel_receiver_rx.closed {
            self
        } else {
            ProtoLaneEndpointView {
                incoming: IncomingSideView {
                    tunnel_receiver_rx: ChannelView {
                        items: self.incoming.tunnel_receiver_rx.items.push(tunnel),
                        ..self.incoming.tunnel_receiver_rx
                    },
                    ..self.incoming
                },
                ..self
            }
        }
    }

    /// The lane after it was given the two halves of a tunnel.
    pub open spec fn attached(self, out: TunnelOutView, inward: TunnelInView) -> ProtoLaneEndpointView {
        self.told(LaneCommandView::Tunnel(TunnelOutStateView::Out(out))).given(
            TunnelInStateView::In(inward),
        )
    }

    /// The lane after it was told to let its tunnel go: the sending side is
    /// told so, and the receiving side is told that the tunnel has ended.
    pub open spec fn detached(self) -> ProtoLaneEndpointView {
        let told = self.told(LaneCommandView::Tunnel(TunnelOutStateView::Absent));
        ProtoLaneEndpointView { incoming: told.incoming.ended(), ..told }
    }
}

/// Gives a lane the two halves of a tunnel: the sending half to its sending
/// side, the receiving half to its receiving side.
pub fn attach(lane: &mut ProtoLaneEndpoint, out: TunnelOut, inward: TunnelIn)
    ensures
        final(lane)@ == old(lane)@.attached(out@, inward@),
{
    let told = lane.outgoing.out_tx.send(LaneCommand::Tunnel(TunnelOutState::Out(out)));
    let given = lane.incoming.tunnel_receiver_rx.send(TunnelInState::In(inward));
}

/// Tells a lane to let its tunnel go: what is sent from now on waits for the
/// next tunnel, and what has arrived is the last that arrives on this one.
pub fn detach(lane: &mut ProtoLaneEndpoint)
    ensures
        final(lane)@ == old(lane)@.detached(),
{
    let told = lane.outgoing.out_tx.send(LaneCommand::Tunnel(TunnelOutState::Absent));
    lane.incoming.end_tunnel();
}

/// What a connector that can try again makes of the end of an attempt, and
/// what it does next: with a tunnel it is connected and waits for a command;
/// without one it tries again after the usual delay. A connector that is not
/// connecting takes no tunnel.
pub open spec fn after_attempt(state: ConnectorState, succeeded: bool) -> (
    ConnectorState,
    ConnectorStep,
) {
    match state {
        ConnectorState::Connecting => if succeeded {
            (ConnectorState::Connected, ConnectorStep::Await)
        } else {
            (ConnectorState::Connecting, ConnectorStep::Retry(RECONNECT_DELAY_SECONDS))
        },
        ConnectorState::Connected => (state, ConnectorStep::Await),
        ConnectorState::Closed => (state, ConnectorStep::Stop),
    }
}

/// What a connector makes of a command, and what it does next: told to reset
/// it tries for a fresh tunnel; told to close, or with nobody left to tell it
/// anything, it stops. A connector that has stopped stays stopped.
pub open spec fn after_command(state: ConnectorState, command: Option<ConnectorCommand>) -> (
    ConnectorState,
    ConnectorStep,
) {
    match state {
        ConnectorState::Closed => (state, ConnectorStep::Stop),
        _ => match command {
            Some(ConnectorCommand::Reset) => (ConnectorState::Connecting, ConnectorStep::Attempt),
            _ => (ConnectorState::Closed, ConnectorStep::Stop),
        },
    }
}

/// What a connector that can try again makes of the end of an attempt.
pub fn next_after_attempt(state: ConnectorState, succeeded: bool) -> (r: (
    ConnectorState,
    ConnectorStep,
))
    ensures
        r == after_attempt(state, succeeded),
{
    match state {
        ConnectorState::Connecting => {
            if succeeded {
                (ConnectorState::Connected, ConnectorStep::Await)
            } else {
                (ConnectorState::Connecting, ConnectorStep::Retry(RECONNECT_DELAY_SECONDS))
            }
        },
        ConnectorState::Connected => (state, ConnectorStep::Await),
        ConnectorState::Closed => (state, ConnectorStep::Stop),
    }
}

/// What a connector makes of a command.
pub fn next_after_command(state: ConnectorState, command: Option<ConnectorCommand>) -> (r: (
    ConnectorState,
    ConnectorStep,
))
    ensures
        r == after_command(state, command),
{
    match state {
        ConnectorState::Closed => (state, ConnectorStep::Stop),
        _ => match command {
            Some(ConnectorCommand::Reset) => (ConnectorState::Connecting, ConnectorStep::Attempt),
            _ => (ConnectorState::Closed, ConnectorStep::Stop),
        },
    }
}

/// The mathematical value of a [`ClientSideTunnelConnector`].
pub ghost struct ClientSideTunnelConnectorView {
    pub host_address: Seq<char>,
    pub state: ConnectorState,
}

/// The connector of the side that dials: it opens a transport to a fixed
/// address, as often as it takes.
#[derive(Debug, PartialEq, Eq)]
pub struct ClientSideTunnelConnector {
    pub host_address: String,
    pub state: ConnectorState,
}

impl View for ClientSideTunnelConnector {
    type V = ClientSideTunnelConnectorView;

    open spec fn view(&self) -> ClientSideTunnelConnectorView {
        ClientSideTunnelConnectorView {
            host_address: self.host_address@,
            state: self.state,
        }
    }
}

impl DeepView for ClientSideTunnelConnector {
    type V = ClientSideTunnelConnectorView;

    open spec fn deep_view(&self) -> ClientSideTunnelConnectorView {
        self@
    }
}

/// The connector of the side that was dialled: it has one transport, which was
/// accepted for it and can be taken once.
#[derive(Clone, Copy, Debug, PartialEq, Eq, Hash, Structural)]
pub struct ServerSideTunnelConnector {
    pub stream_taken: bool,
    pub state: ConnectorState,
}

/// The mathematical value of a [`LocalTunnelConnector`].
pub ghost struct LocalTunnelConnectorView {
    pub high_star: Option<StarKeyView>,
    pub low_star: Option<StarKeyView>,
    pub state: ConnectorState,
}

/// The connector of two lanes inside one process: `high_star` is the star at
/// the high end, which the low lane leads to, and `low_star` the star at the low
/// end.
#[derive(Debug, PartialEq, Eq)]
pub struct LocalTunnelConnector {
    pub high_star: Option<StarKey>,
    pub low_star: Option<StarKey>,
    pub state: ConnectorState,
}

impl View for LocalTunnelConnector {
    type V = LocalTunnelConnectorView;

    open spec fn view(&self) -> LocalTunnelConnectorView {
        LocalTunnelConnectorView {
            high_star: self.high_star.deep_view(),
            low_star: self.low_star.deep_view(),
            state: self.state,
        }
    }
}

impl DeepView for LocalTunnelConnector {
    type V = LocalTunnelConnectorView;

    open spec fn deep_view(&self) -> LocalTunnelConnectorView {
        self@
    }
}

impl TunnelConnector for ClientSideTunnelConnector {

}

impl TunnelConnector for ServerSideTunnelConnector {

}

impl TunnelConnector for LocalTunnelConnector {

}

impl ClientSideTunnelConnector {
    /// A connector that is to dial `host_address`.
    pub fn new(host_address: String) -> (r: Self)
        ensures
            r@ == (ClientSideTunnelConnectorView {
                host_address: host_address@,
                state: ConnectorState::Connecting,
            }),
    {
        ClientSideTunnelConnector { host_address, state: ConnectorState::Connecting }
    }

    /// Takes the end of an attempt to dial and shake hands. A tunnel goes to
    /// the lane, and the connector waits for a command. A failure, of the
    /// dialling or of the handshake, changes nothing on the lane: the
    /// connector tries again after the usual delay.
    pub fn attempted(
        &mut self,
        lane: &mut ProtoLaneEndpoint,
        attempt: Result<(TunnelOut, TunnelIn), MeshError>,
    ) -> (r: ConnectorStep)
        ensures
            final(self)@ == (ClientSideTunnelConnectorView {
                state: after_attempt(old(self).state, attempt is Ok).0,
                ..old(self)@
            }),
            r == after_attempt(old(self).state, attempt is Ok).1,
            final(lane)@ == (match attempt {
                Ok(tunnel) => if old(self).state == ConnectorState::Connecting {
                    old(lane)@.attached(tunnel.0@, tunnel.1@)
                } else {
                    old(lane)@
                },
                Err(_) => old(lane)@,
            }),
    {
        let connecting = self.state == ConnectorState::Connecting;
        let next = next_after_attempt(self.state, attempt.is_ok());
        match attempt {
            Ok(tunnel) => {
                if connecting {
                    attach(lane, tunnel.0, tunnel.1);
                }
            },
            Err(_) => {},
        }
        self.state = next.0;
        next.1
    }

    /// Takes a command, or the news that nobody is left to give one: the
    /// lane lets its tunnel go, and the connector tries again or stops.
    pub fn commanded(&mut self, lane: &mut ProtoLaneEndpoint, command: Option<ConnectorCommand>) -> (r:
        ConnectorStep)
        ensures
            final(self)@ == (ClientSideTunnelConnectorView {
                state: after_command(old(self).state, command).0,
                ..old(self)@
            }),
            r == after_command(old(self).state, command).1,
            final(lane)@ == if old(self).state == ConnectorState::Closed {
                old(lane)@
            } else {
                old(lane)@.detached()
            },
    {
        let next = next_after_command(self.state, command);
        if self.state != ConnectorState::Closed {
            detach(lane);
        }
        self.state = next.0;
        next.1
    }
}

impl ServerSideTunnelConnector {
    /// A connector for a transport that was accepted.
    pub fn new() -> (r: Self)
        ensures
            r == (ServerSideTunnelConnector {
                stream_taken: false,
                state: ConnectorState::Connecting,
            }),
    {
        ServerSideTunnelConnector { stream_taken: false, state: ConnectorState::Connecting }
    }

    /// Takes the transport for the handshake. It can be taken once: a second
    /// attempt is an error and stops the connector.
    pub fn take_stream(&mut self) -> (r: Result<(), Error>)
        ensures
            !old(self).stream_taken ==> r is Ok && *final(self) == (ServerSideTunnelConnector {
                stream_taken: true,
                ..*old(self)
            }),
            old(self).stream_taken ==> r is Err && r->Err_0@.error == "expected stream to be Some"@
                && *final(self) == (ServerSideTunnelConnector {
                state: ConnectorState::Closed,
                ..*old(self)
            }),
    {
        if self.stream_taken {
            self.state = ConnectorState::Closed;
            Err(Error::new("expected stream to be Some"))
        } else {
            self.stream_taken = true;
            Ok(())
        }
    }

    /// Takes the end of the handshake. A tunnel goes to the lane, and the
    /// connector waits for a command. After a failure there is no transport
    /// left to try again with: the connector stops.
    pub fn attempted(
        &mut self,
        lane: &mut ProtoLaneEndpoint,
        attempt: Result<(TunnelOut, TunnelIn), MeshError>,
    ) -> (r: ConnectorStep)
        ensures
            *final(self) == (ServerSideTunnelConnector {
                state: if old(self).state == ConnectorState::Connecting && attempt is Ok {
                    ConnectorState::Connected
                } else {
                    ConnectorState::Closed
                },
                ..*old(self)
            }),
            r == if old(self).state == ConnectorState::Connecting && attempt is Ok {
                ConnectorStep::Await
            } else {
                ConnectorStep::Stop
            },
            final(lane)@ == (match attempt {
                Ok(tunnel) => if old(self).state == ConnectorState::Connecting {
                    old(lane)@.attached(tunnel.0@, tunnel.1@)
                } else {
                    old(lane)@
                },
                Err(_) => old(lane)@,
            }),
    {
        let connecting = self.state == ConnectorState::Connecting;
        match attempt {
            Ok(tunnel) => {
                if connecting {
                    attach(lane, tunnel.0, tunnel.1);
                    self.state = ConnectorState::Connected;
                    return ConnectorStep::Await;
                }
            },
            Err(_) => {},
        }
        self.state = ConnectorState::Closed;
        ConnectorStep::Stop
    }

    /// Takes a command, or the news that nobody is left to give one: the
    /// lane lets its tunnel go and the connector stops, whatever it was told,
    /// for its transport is used up.
    pub fn commanded(&mut self, lane: &mut ProtoLaneEndpoint, command: Option<ConnectorCommand>) -> (r:
        ConnectorStep)
        ensures
            *final(self) == (ServerSideTunnelConnector {
                state: ConnectorState::Closed,
                ..*old(self)
            }),
            r == ConnectorStep::Stop,
            final(lane)@ == if old(self).state == ConnectorState::Closed {
                old(lane)@
            } else {
                old(lane)@.detached()
            },
    {
        if self.state != ConnectorState::Closed {
            detach(lane);
        }
        self.state = ConnectorState::Closed;
        ConnectorStep::Stop
    }
}

/// The sending half of a fresh tunnel to `remote` after the handshake: its
/// opening frames have gone to the peer, and nothing waits on it.
pub open spec fn local_tunnel_out(remote: StarKeyView) -> TunnelOutView {
    TunnelOutView { remote_star: remote, tx: ChannelView { items: Seq::empty(), closed: false } }
}

/// The receiving half of a fresh tunnel to `remote` after the handshake:
/// nothing has arrived on it yet.
pub open spec fn local_tunnel_in(remote: StarKeyView) -> TunnelInView {
    TunnelInView { remote_star: remote, rx: ChannelView { items: Seq::empty(), closed: false } }
}

impl LocalTunnelConnector {
    /// The connector of the two lanes: the star at each end is the one that
    /// the lane of the other end leads to.
    pub fn new(high_lane: &ProtoLaneEndpoint, low_lane: &ProtoLaneEndpoint) -> (r: Self)
        ensures
            r@ == (LocalTunnelConnectorView {
                high_star: low_lane@.remote_star,
                low_star: high_lane@.remote_star,
                state: ConnectorState::Connecting,
            }),
    {
        LocalTunnelConnector {
            high_star: low_lane.remote_star.clone(),
            low_star: high_lane.remote_star.clone(),
            state: ConnectorState::Connecting,
        }
    }

    /// Makes the two ends of a transport, runs the handshake on both and
    /// hands out what came of it, for the high end first. An end whose peer
    /// is known gets a tunnel to the peer. An end whose peer is not known
    /// gets none: a peer that does not say who it is counts as disconnected.
    pub fn tunnels(&self) -> (r: (
        Result<(TunnelOut, TunnelIn), MeshError>,
        Result<(TunnelOut, TunnelIn), MeshError>,
    ))
        ensures
            match self@.low_star {
                Some(low) => r.0 is Ok && r.0->Ok_0.0@ == local_tunnel_out(low) && r.0->Ok_0.1@
                    == local_tunnel_in(low),
                None => r.0 == Err::<(TunnelOut, TunnelIn), MeshError>(MeshError::Disconnected),
            },
            match self@.high_star {
                Some(high) => r.1 is Ok && r.1->Ok_0.0@ == local_tunnel_out(high) && r.1->Ok_0.1@
                    == local_tunnel_in(high),
                None => r.1 == Err::<(TunnelOut, TunnelIn), MeshError>(MeshError::Disconnected),
            },
    {
        let ends = local_tunnels(self.high_star.clone(), self.low_star.clone());
        let mut high = ends.0;
        let mut low = ends.1;
        high.settle();
        low.settle();
        proof {
            lemma_fresh_tunnel_opens(self@.high_star, STARLANE_PROTOCOL_VERSION);
            lemma_fresh_tunnel_opens(self@.low_star, STARLANE_PROTOCOL_VERSION);
        }
        ProtoTunnel::exchange(&mut high, &mut low);
        proof {
            lemma_local_end(self@.high_star, self@.low_star, high@);
            lemma_local_end(self@.low_star, self@.high_star, low@);
        }
        (high.evolve(), low.evolve())
    }

    /// Tries for a tunnel: makes the two ends of a transport and runs the
    /// handshake on both. Where both succeed each lane gets its tunnel and
    /// the connector waits for a command. Otherwise the lanes stay as they
    /// are, and the connector tries again after the usual delay. A connector
    /// that is connected, or has stopped, does not try.
    pub fn connect(&mut self, high_lane: &mut ProtoLaneEndpoint, low_lane: &mut ProtoLaneEndpoint) -> (r:
        ConnectorStep)
        ensures
            final(self)@.high_star == old(self)@.high_star,
            final(self)@.low_star == old(self)@.low_star,
            old(self).state == ConnectorState::Connecting ==> (match (
                old(self)@.high_star,
                old(self)@.low_star,
            ) {
                (Some(high), Some(low)) => r == ConnectorStep::Await && final(self).state
                    == ConnectorState::Connected && final(high_lane)@ == old(high_lane)@.attached(
                    local_tunnel_out(low),
                    local_tunnel_in(low),
                ) && final(low_lane)@ == old(low_lane)@.attached(
                    local_tunnel_out(high),
                    local_tunnel_in(high),
                ),
                _ => r == ConnectorStep::Retry(RECONNECT_DELAY_SECONDS) && final(self).state
                    == ConnectorState::Connecting && final(high_lane)@ == old(high_lane)@
                    && final(low_lane)@ == old(low_lane)@,
            }),
            old(self).state != ConnectorState::Connecting ==> r == after_attempt(
                old(self).state,
                false,
            ).1 && final(self).state == old(self).state && final(high_lane)@ == old(high_lane)@
                && final(low_lane)@ == old(low_lane)@,
    {
        if self.state != ConnectorState::Connecting {
            return next_after_attempt(self.state, false).1;
        }
        let ends = self.tunnels();
        match ends.0 {
            Ok(high) => {
                match ends.1 {
                    Ok(low) => {
                        attach(high_lane, high.0, high.1);
                        attach(low_lane, low.0, low.1);
                        self.state = ConnectorState::Connected;
                        ConnectorStep::Await
                    },
                    Err(_) => ConnectorStep::Retry(RECONNECT_DELAY_SECONDS),
                }
            },
            Err(_) => ConnectorStep::Retry(RECONNECT_DELAY_SECONDS),
        }
    }

    /// Takes a command, or the news that nobody is left to give one: both
    /// lanes let their tunnels go, and the connector tries again or stops.
    pub fn commanded(
        &mut self,
        high_lane: &mut ProtoLaneEndpoint,
        low_lane: &mut ProtoLaneEndpoint,
        command: Option<ConnectorCommand>,
    ) -> (r: ConnectorStep)
        ensures
            final(self)@ == (LocalTunnelConnectorView {
                state: after_command(old(self).state, command).0,
                ..old(self)@
            }),
            r == after_command(old(self).state, command).1,
            final(high_lane)@ == if old(self).state == ConnectorState::Closed {
                old(high_lane)@
            } else {
                old(high_lane)@.detached()
            },
            final(low_lane)@ == if old(self).state == ConnectorState::Closed {
                old(low_lane)@
            } else {
                old(low_lane)@.detached()
            },
    {
        let next = next_after_command(self.state, command);
        if self.state != ConnectorState::Closed {
            detach(high_lane);
            detach(low_lane);
        }
        self.state = next.0;
        next.1
    }
}

/// One end of a transport inside this process, after both ends have opened
/// the handshake and the frames were carried over: with a peer that said who
/// it is, the handshake ends in a tunnel to the peer, which holds nothing
/// that arrived; with a peer that did not, the end still waits.
pub proof fn lemma_local_end(
    own: Option<StarKeyView>,
    peer: Option<StarKeyView>,
    end: ProtoTunnelView,
)
    requires
        end == (ProtoTunnelView {
            tx: ChannelView { items: Seq::empty(), closed: false },
            ..ProtoTunnelView::fresh(own, STARLANE_PROTOCOL_VERSION).settle().receive(
                opening_frames(peer, STARLANE_PROTOCOL_VERSION),
            )
        }),
    ensures
        match peer {
            Some(star) => end.outcome() == Ok::<StarKeyView, MeshError>(star) && end.settle().rx
                == (ChannelView::<FrameView> { items: Seq::empty(), closed: false })
                && end.settle().tx == end.tx,
            None => end.outcome() == Err::<StarKeyView, MeshError>(MeshError::Disconnected),
        },
{
    lemma_fresh_tunnel_opens(own, STARLANE_PROTOCOL_VERSION);
    reveal_with_fuel(ProtoTunnelView::settle, 4);
    let frames = opening_frames(peer, STARLANE_PROTOCOL_VERSION);
    assert(end.rx.items =~= frames);
    let first = end.advance();
    match peer {
        Some(star) => {
            assert(first.rx.items =~= seq![FrameView::Proto(ProtoFrameView::ReportStarKey(star))]);
            let second = first.advance();
            assert(second.rx.items =~= Seq::<FrameView>::empty());
            assert(second.state == HandshakeStateView::Established(star));
        },
        None => {
            assert(first.rx.items =~= Seq::<FrameView>::empty());
            assert(first.waits());
        },
    }
}

/// The codec of the wire: every frame travels as the length of its bytes, in
/// four bytes with the most significant first, followed by the bytes.
#[derive(Debug, PartialEq, Eq)]
pub struct FrameCodex {

}

/// The four bytes of a length, the most significant first.
pub open spec fn length_prefix(length: nat) -> Seq<u8> {
    seq![
        (length / 16777216 % 256) as u8,
        (length / 65536 % 256) as u8,
        (length / 256 % 256) as u8,
        (length % 256) as u8,
    ]
}

/// The length that the first four bytes of `bytes` stand for.
pub open spec fn prefixed_length(bytes: Seq<u8>) -> nat {
    (bytes[0] * 16777216 + bytes[1] * 65536 + bytes[2] * 256 + bytes[3]) as nat
}

/// The bytes of a frame on the wire.
pub open spec fn framed(payload: Seq<u8>) -> Seq<u8> {
    length_prefix(payload.len()) + payload
}

/// Whether `bytes` begin with a whole frame.
pub open spec fn holds_frame(bytes: Seq<u8>) -> bool {
    bytes.len() >= 4 && bytes.len() >= 4 + prefixed_length(bytes)
}

/// What was framed comes back: bytes that begin with a framed payload hold a
/// frame, that frame is the payload, and what follows it is what followed.
pub proof fn lemma_frame_round_trip(payload: Seq<u8>, rest: Seq<u8>)
    requires
        payload.len() <= u32::MAX,
    ensures
        holds_frame(framed(payload) + rest),
        prefixed_length(framed(payload) + rest) == payload.len(),
        (framed(payload) + rest).subrange(4, 4 + payload.len() as int) == payload,
        (framed(payload) + rest).skip(4 + payload.len() as int) == rest,
{
    let wire = framed(payload) + rest;
    let n = payload.len();
    assert(wire[0] == (n / 16777216 % 256) as u8);
    assert(wire[1] == (n / 65536 % 256) as u8);
    assert(wire[2] == (n / 256 % 256) as u8);
    assert(wire[3] == (n % 256) as u8);
    assert(wire.subrange(4, 4 + n as int) =~= payload);
    assert(wire.skip(4 + n as int) =~= rest);
}

impl FrameCodex {
    /// The codec.
    pub fn new() -> (r: Self)
        ensures
            r == (FrameCodex {  }),
    {
        FrameCodex {  }
    }

    /// Writes a frame: appends the length of `data` and `data` itself to
    /// what is to go out. Data of more bytes than four bytes can count is
    /// refused, and nothing is written.
    pub fn send(write: &mut Vec<u8>, data: &Vec<u8>) -> (r: Result<(), MeshError>)
        ensures
            data.len() <= u32::MAX ==> r == Ok::<(), MeshError>(()) && final(write)@ == old(write)@
                + framed(data@),
            data.len() > u32::MAX ==> r == Err::<(), MeshError>(MeshError::SerializationError)
                && final(write)@ == old(write)@,
    {
        let length = data.len();
        if length > 4294967295 {
            return Err(MeshError::SerializationError);
        }
        write.push((length / 16777216 % 256) as u8);
        write.push((length / 65536 % 256) as u8);
        write.push((length / 256 % 256) as u8);
        write.push((length % 256) as u8);
        let mut i: usize = 0;
        while i < length
            invariant
                i <= length,
                length == data.len(),
                write@ == old(write)@ + length_prefix(length as nat) + data@.take(i as int),
            decreases length - i,
        {
            write.push(data[i]);
            assert(data@.take(i + 1) =~= data@.take(i as int).push(data@[i as int]));
            i += 1;
        }
        assert(data@.take(length as int) =~= data@);
        assert(write@ =~= old(write)@ + framed(data@));
        Ok(())
    }

    /// Reads a frame: takes the first frame off what has come in, if it has
    /// come in whole, and hands out its bytes. Otherwise nothing is taken.
    pub fn receive(read: &mut Vec<u8>) -> (r: Option<Vec<u8>>)
        ensures
            holds_frame(old(read)@) ==> r is Some && r->0@ == old(read)@.subrange(
                4,
                4 + prefixed_length(old(read)@) as int,
            ) && final(read)@ == old(read)@.skip(4 + prefixed_length(old(read)@) as int),
            !holds_frame(old(read)@) ==> r is None && final(read)@ == old(read)@,
    {
        if read.len() < 4 {
            return None;
        }
        let length: u64 = read[0] as u64 * 16777216 + read[1] as u64 * 65536 + read[2] as u64 * 256
            + read[3] as u64;
        if (read.len() as u64) < 4 + length {
            return None;
        }
        let end: usize = (4 + length) as usize;
        let mut rest = read.split_off(end);
        let payload = read.split_off(4);
        core::mem::swap(read, &mut rest);
        assert(payload@ =~= old(read)@.subrange(4, 4 + prefixed_length(old(read)@) as int));
        assert(read@ =~= old(read)@.skip(4 + prefixed_length(old(read)@) as int));
        Some(payload)
    }
}

} // verus!
