use starlane::channel::{Channel, Received};
use starlane::connector::{
    ClientSideTunnelConnector, ConnectorState, ConnectorStep, FrameCodex, LocalTunnelConnector,
    ServerSideTunnelConnector,
};
use starlane::error::MeshError;
use starlane::frame::{Frame, FrameDiagnose, ProtoFrame, StarMessage, StarMessagePayload};
use starlane::id::{Id, IdSeq};
use starlane::lane::{
    ConnectorCommand, LaneCommand, LaneEndpoint, LaneMeta, LaneMiddle, ProtoLaneEndpoint,
    TunnelOut, TunnelOutState, HOP_CACHE_LIMIT, STARLANE_PROTOCOL_VERSION,
};
use starlane::proto::{
    local_tunnels, FrameExpectation, FrameHold, HandshakeState, ProtoStar, ProtoStarState,
    ProtoTracker, ProtoTunnel, TrackerCheck, MAX_HOPS, TRACKER_TIMEOUT_SECONDS,
};
use starlane::star::{StarCommand, StarKey, StarKind};

fn ping() -> Frame {
    Frame::Diagnose(FrameDiagnose::Ping)
}

fn pong() -> Frame {
    Frame::Diagnose(FrameDiagnose::Pong)
}

/// Runs the sending side of a lane and carries what it hands to its tunnel
/// over to the receiving side of the other lane.
fn carry(middle: &mut LaneMiddle, from: &mut ProtoLaneEndpoint, to: &mut ProtoLaneEndpoint) {
    middle.run(&mut from.outgoing.out_tx);
    for frame in middle.take_outbound() {
        let _ = to.incoming.arrive(frame);
    }
}

/// The next frame that a lane hands to its node, past the notices that a
/// tunnel has ended.
fn next_frame(lane: &mut ProtoLaneEndpoint) -> Option<Frame> {
    loop {
        match lane.incoming.recv() {
            Some(StarCommand::Frame(Frame::Close)) => continue,
            Some(StarCommand::Frame(frame)) => return Some(frame),
            _ => return None,
        }
    }
}

#[test]
fn proto_tunnel() {
    let (mut high, mut low) = local_tunnels(Some(StarKey::new(2)), Some(StarKey::new(1)));
    high.settle();
    low.settle();
    ProtoTunnel::exchange(&mut high, &mut low);
    let high_result = high.evolve();
    let low_result = low.evolve();

    assert!(high_result.is_ok());
    assert!(low_result.is_ok());
}

#[test]
fn lane() {
    let high = StarKey::new(2);
    let low = StarKey::new(1);

    let mut high_lane = ProtoLaneEndpoint::new(Some(low.clone()));
    let mut low_lane = ProtoLaneEndpoint::new(Some(high.clone()));
    let mut high_middle = LaneMiddle::new();

    let mut connector = LocalTunnelConnector::new(&high_lane, &low_lane);
    assert_eq!(connector.connect(&mut high_lane, &mut low_lane), ConnectorStep::Await);

    high_lane.outgoing.out_tx.send(LaneCommand::Frame(ping())).unwrap();
    carry(&mut high_middle, &mut high_lane, &mut low_lane);

    let result = next_frame(&mut low_lane);
    if let Some(Frame::Diagnose(FrameDiagnose::Ping)) = result {
        assert!(true);
    } else if let Some(frame) = result {
        println!("RECEIVED {}", frame.to_string());
        assert!(false);
    } else {
        println!("RECEIVED NONE");
        assert!(false);
    }

    assert_eq!(
        connector.commanded(&mut high_lane, &mut low_lane, Some(ConnectorCommand::Reset)),
        ConnectorStep::Attempt
    );
    assert_eq!(connector.connect(&mut high_lane, &mut low_lane), ConnectorStep::Await);
    high_lane.outgoing.out_tx.send(LaneCommand::Frame(pong())).unwrap();
    carry(&mut high_middle, &mut high_lane, &mut low_lane);
    let result = next_frame(&mut low_lane);

    if let Some(Frame::Diagnose(FrameDiagnose::Pong)) = result {
        assert!(true);
    } else if let Some(frame) = result {
        println!("RECEIVED {}", frame.to_string());
        assert!(false);
    } else {
        println!("RECEIVED NONE");
        assert!(false);
    }
}

#[test]
fn handshake_gives_each_side_the_other_star() {
    let a = StarKey::new_with_subgraph(vec![7, 1], 3);
    let b = StarKey::new(9);
    let (mut ta, mut tb) = local_tunnels(Some(a.clone()), Some(b.clone()));
    ta.settle();
    tb.settle();
    assert_eq!(ta.state, HandshakeState::AwaitingPeerVersion);
    assert_eq!(
        ta.tx.items,
        vec![
            Frame::Proto(ProtoFrame::StarLaneProtocolVersion(STARLANE_PROTOCOL_VERSION)),
            Frame::Proto(ProtoFrame::ReportStarKey(a.clone())),
        ]
    );
    ProtoTunnel::exchange(&mut ta, &mut tb);
    let (a_out, a_in) = ta.evolve().unwrap();
    let (b_out, b_in) = tb.evolve().unwrap();
    assert_eq!(a_out.remote_star, b);
    assert_eq!(a_in.remote_star, b);
    assert_eq!(b_out.remote_star, a);
    assert_eq!(b_in.remote_star, a);
    assert!(a_in.rx.items.is_empty());
}

#[test]
fn handshake_fails_on_both_sides_when_versions_differ() {
    let mut ta = ProtoTunnel::with_version(Some(StarKey::new(1)), 1);
    let mut tb = ProtoTunnel::with_version(Some(StarKey::new(2)), 2);
    ta.settle();
    tb.settle();
    ProtoTunnel::exchange(&mut ta, &mut tb);
    assert_eq!(ta.evolve(), Err(MeshError::VersionMismatch));
    assert_eq!(tb.evolve(), Err(MeshError::VersionMismatch));
}

#[test]
fn handshake_rejects_what_it_does_not_expect() {
    let mut t = ProtoTunnel::new(Some(StarKey::new(1)));
    t.rx.send(ping()).unwrap();
    assert_eq!(t.evolve(), Err(MeshError::UnexpectedFrame));

    let mut t = ProtoTunnel::new(Some(StarKey::new(1)));
    t.rx.send(Frame::Proto(ProtoFrame::StarLaneProtocolVersion(STARLANE_PROTOCOL_VERSION)))
        .unwrap();
    t.rx.send(Frame::Proto(ProtoFrame::CentralSearch)).unwrap();
    assert_eq!(t.evolve(), Err(MeshError::UnexpectedFrame));

    let mut t = ProtoTunnel::new(Some(StarKey::new(1)));
    t.rx.close();
    assert_eq!(t.evolve(), Err(MeshError::Disconnected));

    let mut t = ProtoTunnel::new(None);
    t.rx.send(Frame::Proto(ProtoFrame::StarLaneProtocolVersion(STARLANE_PROTOCOL_VERSION)))
        .unwrap();
    assert_eq!(t.evolve(), Err(MeshError::Disconnected));

    let mut t = ProtoTunnel::new(Some(StarKey::new(1)));
    t.tx.close();
    assert_eq!(t.evolve(), Err(MeshError::ChannelClosed));
}

#[test]
fn handshake_goes_step_by_step() {
    let mut t = ProtoTunnel::new(Some(StarKey::new(1)));
    assert_eq!(t.state, HandshakeState::Start);
    t.advance();
    assert_eq!(t.state, HandshakeState::SentVersion);
    t.advance();
    assert_eq!(t.state, HandshakeState::SentIdentity);
    t.advance();
    assert_eq!(t.state, HandshakeState::AwaitingPeerVersion);
    assert!(t.waits());
    t.advance();
    assert_eq!(t.state, HandshakeState::AwaitingPeerVersion);
    t.rx.send(Frame::Proto(ProtoFrame::StarLaneProtocolVersion(STARLANE_PROTOCOL_VERSION)))
        .unwrap();
    t.advance();
    assert_eq!(t.state, HandshakeState::AwaitingPeerIdentity);
    t.rx.send(Frame::Proto(ProtoFrame::ReportStarKey(StarKey::new(5)))).unwrap();
    t.advance();
    assert_eq!(t.state, HandshakeState::Established(StarKey::new(5)));
    assert!(t.is_final());
}

#[test]
fn frames_sent_without_a_tunnel_arrive_in_order() {
    let f1 = ping();
    let f2 = pong();
    let f3 = Frame::Proto(ProtoFrame::CentralSearch);
    let mut middle = LaneMiddle::new();
    middle.process(LaneCommand::Frame(f1.clone())).unwrap();
    middle.process(LaneCommand::Frame(f2.clone())).unwrap();
    middle.process(LaneCommand::Frame(f3.clone())).unwrap();
    assert!(middle.take_outbound().is_empty());
    assert_eq!(middle.queue, vec![f1.clone(), f2.clone(), f3.clone()]);
    let tunnel = TunnelOut { remote_star: StarKey::new(4), tx: Channel::new() };
    middle.process(LaneCommand::Tunnel(TunnelOutState::Out(tunnel))).unwrap();
    assert!(middle.queue.is_empty());
    assert_eq!(middle.take_outbound(), vec![f1, f2, f3]);
}

#[test]
fn lane_buffers_again_after_detach_and_says_goodbye_on_shutdown() {
    let mut middle = LaneMiddle::new();
    let tunnel = TunnelOut { remote_star: StarKey::new(4), tx: Channel::new() };
    middle.process(LaneCommand::Tunnel(TunnelOutState::Out(tunnel))).unwrap();
    middle.process(LaneCommand::Frame(ping())).unwrap();
    assert_eq!(middle.take_outbound(), vec![ping()]);
    middle.process(LaneCommand::Tunnel(TunnelOutState::Absent)).unwrap();
    middle.process(LaneCommand::Frame(pong())).unwrap();
    assert_eq!(middle.queue, vec![pong()]);

    let mut closed = Channel::new();
    closed.close();
    let gone = TunnelOut { remote_star: StarKey::new(4), tx: closed };
    assert_eq!(
        middle.process(LaneCommand::Tunnel(TunnelOutState::Out(gone))),
        Err(MeshError::ChannelClosed)
    );
    assert_eq!(middle.queue, vec![pong()]);

    let tunnel = TunnelOut { remote_star: StarKey::new(4), tx: Channel::new() };
    let mut commands = Channel::new();
    commands.send(LaneCommand::Tunnel(TunnelOutState::Out(tunnel))).unwrap();
    commands.send(LaneCommand::Shutdown).unwrap();
    commands.send(LaneCommand::Frame(ping())).unwrap();
    middle.run(&mut commands);
    assert!(middle.closed);
    assert!(commands.closed);
    assert!(commands.items.is_empty());
    assert_eq!(middle.take_outbound(), vec![pong(), Frame::Close]);
}

#[test]
fn hop_cache_returns_what_was_set() {
    let s = StarKey::new_with_subgraph(vec![1, 2], 3);
    let neighbour = StarKey::new(8);
    let lane = ProtoLaneEndpoint::new(Some(neighbour.clone())).evolve().unwrap();
    let mut meta = LaneMeta::new(lane);
    assert_eq!(meta.get_hops_to_star(&s), None);
    meta.set_hops_to_star(s.clone(), 3);
    assert_eq!(meta.get_hops_to_star(&s), Some(3));
    meta.set_hops_to_star(s.clone(), 5);
    assert_eq!(meta.get_hops_to_star(&s), Some(5));
    assert_eq!(meta.get_hops_to_star(&neighbour), Some(1));
    meta.set_hops_to_star(neighbour.clone(), 7);
    assert_eq!(meta.get_hops_to_star(&neighbour), Some(1));
    assert_eq!(meta.get_hops_to_star(&StarKey::new_with_subgraph(vec![1], 2)), None);
    assert_eq!(meta.star_paths.cap(), HOP_CACHE_LIMIT);
    assert_eq!(meta.unwrap().remote_star, neighbour);
}

#[test]
fn hop_cache_forgets_the_least_recently_used_star() {
    let lane = ProtoLaneEndpoint::new(Some(StarKey::new(1))).evolve().unwrap();
    let mut meta = LaneMeta::new(lane);
    meta.star_paths.resize(2);
    let a = StarKey::new(10);
    let b = StarKey::new(11);
    let c = StarKey::new(12);
    meta.set_hops_to_star(a.clone(), 2);
    meta.set_hops_to_star(b.clone(), 3);
    assert_eq!(meta.get_hops_to_star(&a), Some(2));
    meta.set_hops_to_star(c.clone(), 4);
    assert_eq!(meta.get_hops_to_star(&b), None);
    assert_eq!(meta.get_hops_to_star(&a), Some(2));
    assert_eq!(meta.get_hops_to_star(&c), Some(4));
}

#[test]
fn tracker_times_out_again_and_again_until_answered() {
    let frame = Frame::Proto(ProtoFrame::CentralSearch);
    let mut tracker = ProtoTracker::new();
    assert_eq!(tracker.timeout, TRACKER_TIMEOUT_SECONDS);
    assert!(!tracker.has_expectation());
    assert_eq!(tracker.check(100), TrackerCheck::Idle);
    tracker.track(frame.clone(), FrameExpectation::CentralFound, 100);
    assert!(tracker.has_expectation());
    assert_eq!(tracker.check(102), TrackerCheck::Wait(3));
    match tracker.check(105) {
        TrackerCheck::Timeout(timeout) => {
            assert_eq!(timeout.frame, frame);
            assert_eq!(timeout.retries, 1);
        }
        other => panic!("{:?}", other),
    }
    assert_eq!(tracker.check(106), TrackerCheck::Wait(4));
    match tracker.check(111) {
        TrackerCheck::Timeout(timeout) => assert_eq!(timeout.retries, 2),
        other => panic!("{:?}", other),
    }
    tracker.process(&ping());
    assert!(tracker.has_expectation());
    tracker.process(&Frame::Proto(ProtoFrame::CentralFound(2)));
    assert!(!tracker.has_expectation());
    assert_eq!(tracker.check(1000), TrackerCheck::Idle);
}

#[test]
fn tracker_keeps_one_case() {
    let mut tracker = ProtoTracker::with_timeout(2);
    tracker.track(Frame::Proto(ProtoFrame::CentralSearch), FrameExpectation::CentralFound, 0);
    tracker.track(
        Frame::Proto(ProtoFrame::RequestSubgraphExpansion),
        FrameExpectation::GrantSubgraphExpansion,
        1,
    );
    tracker.process(&Frame::Proto(ProtoFrame::CentralFound(1)));
    assert!(tracker.has_expectation());
    match tracker.check(3) {
        TrackerCheck::Timeout(timeout) => {
            assert_eq!(timeout.frame, Frame::Proto(ProtoFrame::RequestSubgraphExpansion))
        }
        other => panic!("{:?}", other),
    }
    tracker.process(&Frame::Proto(ProtoFrame::GrantSubgraphExpansion(vec![4])));
    assert!(!tracker.has_expectation());
    let message = StarMessage::new(
        Id::new(0, 1),
        StarKey::central(),
        StarKey::new(3),
        StarMessagePayload::AssignSequence(9),
    );
    assert!(FrameExpectation::AssignSequence.matches(&Frame::StarMessage(message)));
    assert!(!FrameExpectation::AssignSequence.matches(&ping()));
}

/// Nodes with the sending sides of their lanes, as a test wires them up.
struct Mesh {
    nodes: Vec<ProtoStar>,
    keys: Vec<StarKey>,
    middles: Vec<Vec<LaneMiddle>>,
}

impl Mesh {
    fn new() -> Self {
        Mesh { nodes: vec![], keys: vec![], middles: vec![] }
    }

    fn add(&mut self, key: StarKey, kind: StarKind) -> usize {
        self.add_node(ProtoStar::new(Some(key.clone()), kind), key)
    }

    /// A node that the others know as `key`, whatever it knows of itself.
    fn add_node(&mut self, node: ProtoStar, key: StarKey) -> usize {
        self.nodes.push(node);
        self.keys.push(key);
        self.middles.push(vec![]);
        self.nodes.len() - 1
    }

    fn link(&mut self, a: usize, b: usize) {
        let mut a_lane = ProtoLaneEndpoint::new(Some(self.keys[b].clone()));
        let mut b_lane = ProtoLaneEndpoint::new(Some(self.keys[a].clone()));
        let mut connector = LocalTunnelConnector::new(&a_lane, &b_lane);
        assert_eq!(connector.connect(&mut a_lane, &mut b_lane), ConnectorStep::Await);
        self.nodes[a].add_lane(a_lane);
        self.nodes[b].add_lane(b_lane);
        self.middles[a].push(LaneMiddle::new());
        self.middles[b].push(LaneMiddle::new());
    }

    fn lane(&self, node: usize, to: &StarKey) -> usize {
        self.nodes[node].lanes.iter().position(|l| l.lane.remote_star == *to).unwrap()
    }

    /// Lets every node work and carries the frames between them until all is
    /// quiet. Returns the number of rounds that it took.
    fn settle(&mut self, now: u64) -> usize {
        let mut rounds = 0;
        loop {
            rounds += 1;
            assert!(rounds < 10_000, "the mesh does not come to rest");
            let mut busy = false;
            for n in 0..self.nodes.len() {
                while self.nodes[n].evolve(now) {
                    busy = true;
                }
                for i in 0..self.nodes[n].lanes.len() {
                    self.middles[n][i].run(&mut self.nodes[n].lanes[i].lane.outgoing.out_tx);
                    let frames = self.middles[n][i].take_outbound();
                    let peer_key = self.nodes[n].lanes[i].lane.remote_star.clone();
                    let peer = self.keys.iter().position(|k| *k == peer_key).unwrap();
                    let back = self.lane(peer, &self.keys[n]);
                    for frame in frames {
                        busy = true;
                        self.nodes[peer].lanes[back].lane.incoming.arrive(frame).unwrap();
                    }
                }
            }
            if !busy {
                return rounds;
            }
        }
    }
}

fn hops(lane: &mut LaneMeta<LaneEndpoint>, star: &StarKey) -> Option<usize> {
    lane.get_hops_to_star(star)
}

#[test]
fn discovery_reaches_the_far_end_of_a_line() {
    let mut mesh = Mesh::new();
    let a = mesh.add(StarKey::new(1), StarKind::Mesh);
    let b = mesh.add(StarKey::new(2), StarKind::Mesh);
    let c = mesh.add(StarKey::new(3), StarKind::Central);
    mesh.nodes[c].start(0);
    mesh.keys[c] = StarKey::central();
    mesh.link(a, b);
    mesh.link(b, c);
    mesh.nodes[a].start(0);
    mesh.nodes[b].start(0);
    mesh.settle(0);

    let central = StarKey::central();
    let a_to_b = mesh.lane(a, &StarKey::new(2));
    let b_to_c = mesh.lane(b, &central);
    assert_eq!(hops(&mut mesh.nodes[a].lanes[a_to_b], &central), Some(2));
    assert_eq!(hops(&mut mesh.nodes[b].lanes[b_to_c], &central), Some(1));
    assert_eq!(mesh.nodes[a].get_hops_to_star(&central), Some(2));
    assert_eq!(mesh.nodes[b].get_hops_to_star(&central), Some(1));
    assert_eq!(mesh.nodes[b].state, ProtoStarState::Evolved);
    let path = mesh.nodes[a].shortest_path_star_key(&central).unwrap();
    assert_eq!(path.next_lane, StarKey::new(2));
    assert_eq!(path.hops, 2);
    assert_eq!(path.to, central);
}

#[test]
fn node_evolves_over_a_loopback_to_central() {
    let mut mesh = Mesh::new();
    let a = mesh.add(StarKey::new(2), StarKind::Mesh);
    let b = mesh.add(StarKey::central(), StarKind::Central);
    mesh.nodes[b].start(0);
    assert_eq!(mesh.nodes[b].state, ProtoStarState::Evolved);
    assert_eq!(mesh.nodes[b].sequence, Some(IdSeq::new(0)));
    mesh.link(a, b);
    mesh.nodes[a].start(0);
    assert_eq!(mesh.nodes[a].state, ProtoStarState::SearchingCentral);
    mesh.settle(0);

    assert_eq!(mesh.nodes[a].state, ProtoStarState::Evolved);
    let key = mesh.nodes[a].star_key.clone().unwrap();
    assert_ne!(key, StarKey::central());
    assert_eq!(key, StarKey::new(2));
    assert_eq!(mesh.nodes[a].sequence, Some(IdSeq::new(1)));
    assert_eq!(mesh.nodes[a].get_hops_to_star(&StarKey::central()), Some(1));
    match mesh.nodes[a].evolution_tx.try_recv() {
        Received::Item(evolution) => {
            assert_eq!(evolution.star, StarKey::new(2));
            assert_eq!(evolution.sequence, 1);
        }
        other => panic!("{:?}", other),
    }
    assert_eq!(mesh.nodes[a].evolution_tx.try_recv(), Received::Empty);
    assert!(!mesh.nodes[a].tracker.has_expectation());
}

#[test]
fn discovery_comes_to_rest_on_a_triangle() {
    let mut mesh = Mesh::new();
    let a = mesh.add(StarKey::new(1), StarKind::Mesh);
    let b = mesh.add(StarKey::new(2), StarKind::Mesh);
    let c = mesh.add(StarKey::central(), StarKind::Central);
    mesh.nodes[c].start(0);
    mesh.link(a, b);
    mesh.link(b, c);
    mesh.link(c, a);
    mesh.nodes[a].start(0);
    mesh.nodes[b].start(0);
    let rounds = mesh.settle(0);
    assert!(rounds < 200);
    let central = StarKey::central();
    assert_eq!(mesh.nodes[a].get_hops_to_star(&central), Some(1));
    assert_eq!(mesh.nodes[b].get_hops_to_star(&central), Some(1));
    assert_eq!(mesh.nodes[a].state, ProtoStarState::Evolved);
    assert_eq!(mesh.nodes[b].state, ProtoStarState::Evolved);
    let a_to_b = mesh.lane(a, &StarKey::new(2));
    assert_eq!(hops(&mut mesh.nodes[a].lanes[a_to_b], &central), Some(2));
}

#[test]
fn discovery_comes_to_rest_on_a_ring_without_central() {
    let mut mesh = Mesh::new();
    let a = mesh.add_node(ProtoStar::new(None, StarKind::Mesh), StarKey::new(1));
    let b = mesh.add_node(ProtoStar::new(None, StarKind::Mesh), StarKey::new(2));
    let c = mesh.add_node(ProtoStar::new(None, StarKind::Mesh), StarKey::new(3));
    mesh.link(a, b);
    mesh.link(b, c);
    mesh.link(c, a);
    for n in [a, b, c] {
        mesh.nodes[n].start(0);
    }
    mesh.settle(0);
    // A rumour of a central star goes round the ring and dies at the ceiling.
    let from = StarKey::new(2);
    mesh.nodes[a].process_frame(&from, Frame::Proto(ProtoFrame::CentralFound(1)), 0);
    let rounds = mesh.settle(0);
    assert!(rounds < 200);
    for n in [a, b, c] {
        let known = mesh.nodes[n].get_hops_to_star(&StarKey::central()).unwrap();
        assert!(known >= 1 && known <= MAX_HOPS as usize);
    }
}

#[test]
fn node_ignores_hops_beyond_the_ceiling() {
    let mut node = ProtoStar::new(Some(StarKey::new(1)), StarKind::Mesh);
    let neighbour = StarKey::new(2);
    node.add_lane(ProtoLaneEndpoint::new(Some(neighbour.clone())));
    node.add_lane(ProtoLaneEndpoint::new(Some(StarKey::new(3))));
    let central = StarKey::central();
    for bad in [0, -1, MAX_HOPS + 1, i32::MAX] {
        node.process_frame(&neighbour, Frame::Proto(ProtoFrame::CentralFound(bad)), 0);
        assert_eq!(node.get_hops_to_star(&central), None);
    }
    node.lanes[1].lane.outgoing.out_tx.items.clear();
    node.process_frame(&neighbour, Frame::Proto(ProtoFrame::CentralFound(MAX_HOPS)), 0);
    assert_eq!(node.get_hops_to_star(&central), Some(MAX_HOPS as usize));
    // at the ceiling nothing is passed on
    assert!(node.lanes[1].lane.outgoing.out_tx.items.is_empty());
    node.process_frame(&StarKey::new(3), Frame::Proto(ProtoFrame::CentralSearch), 0);
    assert!(node.lanes[1].lane.outgoing.out_tx.items.is_empty());
    node.process_frame(&neighbour, Frame::Proto(ProtoFrame::CentralFound(4)), 0);
    assert_eq!(
        node.lanes[1].lane.outgoing.out_tx.items,
        vec![LaneCommand::Frame(Frame::Proto(ProtoFrame::CentralFound(5)))]
    );
    node.process_frame(&StarKey::new(3), Frame::Proto(ProtoFrame::CentralSearch), 0);
    assert_eq!(
        node.lanes[1].lane.outgoing.out_tx.items.last(),
        Some(&LaneCommand::Frame(Frame::Proto(ProtoFrame::CentralFound(5))))
    );
}

#[test]
fn node_without_key_asks_for_a_subgraph_and_takes_it() {
    let mut node = ProtoStar::new(None, StarKind::Mesh);
    let neighbour = StarKey::new(2);
    node.add_lane(ProtoLaneEndpoint::new(Some(neighbour.clone())));
    node.lanes[0].lane.outgoing.out_tx.items.clear();
    node.start(10);
    assert_eq!(node.state, ProtoStarState::Unidentified);
    assert_eq!(
        node.lanes[0].lane.outgoing.out_tx.items,
        vec![
            LaneCommand::Frame(Frame::Proto(ProtoFrame::CentralSearch)),
            LaneCommand::Frame(Frame::Proto(ProtoFrame::RequestSubgraphExpansion)),
        ]
    );
    // the one case of the tracker is the request made last
    assert_eq!(
        node.tracker.case.as_ref().unwrap().frame,
        Frame::Proto(ProtoFrame::RequestSubgraphExpansion)
    );
    // unanswered, the request is made again
    assert!(!node.evolve(12));
    assert!(node.evolve(15));
    assert_eq!(
        node.lanes[0].lane.outgoing.out_tx.items.last(),
        Some(&LaneCommand::Frame(Frame::Proto(ProtoFrame::RequestSubgraphExpansion)))
    );
    node.process_frame(
        &neighbour,
        Frame::Proto(ProtoFrame::GrantSubgraphExpansion(vec![5, 6])),
        16,
    );
    assert_eq!(node.star_key, Some(StarKey::new_with_subgraph(vec![5, 6], 0)));
    assert_eq!(node.state, ProtoStarState::SearchingCentral);
    node.process_frame(&neighbour, Frame::Proto(ProtoFrame::CentralFound(3)), 17);
    assert_eq!(node.state, ProtoStarState::AwaitingSequence);
    let assign = StarMessage::new(
        Id::new(0, 4),
        StarKey::central(),
        StarKey::new_with_subgraph(vec![5, 6], 0),
        StarMessagePayload::AssignSequence(4),
    );
    node.process_frame(&neighbour, Frame::StarMessage(assign), 18);
    assert_eq!(node.state, ProtoStarState::Evolved);
    assert_eq!(node.sequence.as_mut().unwrap().next(), Some(Id::new(4, 0)));
}

#[test]
fn central_grants_subgraphs_and_sequences() {
    let mut central = ProtoStar::new(None, StarKind::Central);
    central.command_rx.send(StarCommand::Init).unwrap();
    assert!(central.evolve(0));
    assert_eq!(central.star_key, Some(StarKey::central()));
    let neighbour = StarKey::new(2);
    central
        .command_rx
        .send(StarCommand::AddLane(ProtoLaneEndpoint::new(Some(neighbour.clone()))))
        .unwrap();
    assert!(central.evolve(0));
    assert!(!central.evolve(0));
    assert!(central.lanes[0].lane.outgoing.out_tx.items.is_empty());
    central.process_frame(&neighbour, Frame::Proto(ProtoFrame::RequestSubgraphExpansion), 0);
    central.process_frame(&neighbour, Frame::Proto(ProtoFrame::RequestSubgraphExpansion), 0);
    central.process_frame(&neighbour, Frame::Proto(ProtoFrame::CentralSearch), 0);
    central.process_frame(&neighbour, Frame::Proto(ProtoFrame::CentralFound(3)), 0);
    let ask = StarMessage::to_central(
        Id::new(0, 0),
        neighbour.clone(),
        StarMessagePayload::RequestSequence,
    );
    central.process_frame(&neighbour, Frame::StarMessage(ask), 0);
    let answer = StarMessage {
        from: StarKey::central(),
        to: neighbour.clone(),
        id: Id::new(0, 1),
        transaction: None,
        payload: StarMessagePayload::AssignSequence(1),
        retry: 0,
        max_retries: 16,
    };
    assert_eq!(
        central.lanes[0].lane.outgoing.out_tx.items,
        vec![
            LaneCommand::Frame(Frame::Proto(ProtoFrame::GrantSubgraphExpansion(vec![1]))),
            LaneCommand::Frame(Frame::Proto(ProtoFrame::GrantSubgraphExpansion(vec![2]))),
            LaneCommand::Frame(Frame::Proto(ProtoFrame::CentralFound(1))),
            LaneCommand::Frame(Frame::StarMessage(answer)),
        ]
    );
    assert_eq!(central.get_hops_to_star(&StarKey::central()), None);
}

#[test]
fn frames_wait_in_the_hold_until_a_lane_leads_to_their_star() {
    let mut node = ProtoStar::new(Some(StarKey::new(1)), StarKind::Mesh);
    let far = StarKey::new(9);
    let other = StarKey::new(8);
    node.send_frame(&far, ping());
    node.send_frame(&other, ping());
    node.send_frame(&far, pong());
    node.send_frame_no_hold(&far, Frame::Close);
    assert_eq!(node.frame_hold.held.len(), 3);
    assert_eq!(node.lane_with_shortest_path_to_star(&far), None);
    node.add_lane(ProtoLaneEndpoint::new(None));
    assert!(node.lanes.is_empty());
    node.add_lane(ProtoLaneEndpoint::new(Some(far.clone())));
    assert_eq!(node.frame_hold.held.len(), 1);
    assert_eq!(node.frame_hold.held[0].star, other);
    assert_eq!(
        node.lanes[0].lane.outgoing.out_tx.items,
        vec![
            LaneCommand::Frame(ping()),
            LaneCommand::Frame(pong()),
            LaneCommand::Frame(Frame::Proto(ProtoFrame::CentralSearch)),
        ]
    );
    assert_eq!(node.lane_with_shortest_path_to_star(&far), Some(0));
    // a second lane to the same star takes the place of the first
    node.add_lane(ProtoLaneEndpoint::new(Some(far.clone())));
    assert_eq!(node.lanes.len(), 1);
    let mut hold = FrameHold::new();
    assert_eq!(hold.release(&far), None);
    hold.add(&far, ping());
    assert_eq!(hold.release(&other), None);
    assert_eq!(hold.release(&far), Some(vec![ping()]));
}

#[test]
fn node_picks_the_lane_with_the_fewest_hops() {
    let mut node = ProtoStar::new(Some(StarKey::new(1)), StarKind::Mesh);
    let n2 = StarKey::new(2);
    let n3 = StarKey::new(3);
    let n4 = StarKey::new(4);
    for n in [&n2, &n3, &n4] {
        node.add_lane(ProtoLaneEndpoint::new(Some(n.clone())));
    }
    let target = StarKey::new_with_subgraph(vec![3], 1);
    node.lanes[0].set_hops_to_star(target.clone(), 6);
    node.lanes[1].set_hops_to_star(target.clone(), 4);
    node.lanes[2].set_hops_to_star(target.clone(), 4);
    assert_eq!(node.get_hops_to_star(&target), Some(4));
    assert_eq!(node.lane_with_shortest_path_to_star(&target), Some(1));
    let path = node.shortest_path_star_key(&target).unwrap();
    assert_eq!((path.next_lane, path.hops), (n3.clone(), 4));
    for lane in node.lanes.iter_mut() {
        lane.lane.outgoing.out_tx.items.clear();
    }
    let message =
        StarMessage::new(Id::new(1, 1), StarKey::new(7), target.clone(), StarMessagePayload::SupervisorPledgeToCentral);
    node.process_frame(&n2, Frame::StarMessage(message.clone()), 0);
    assert!(node.lanes[0].lane.outgoing.out_tx.items.is_empty());
    assert_eq!(
        node.lanes[1].lane.outgoing.out_tx.items,
        vec![LaneCommand::Frame(Frame::StarMessage(message.clone()))]
    );
    // a lane that takes no more commands does not lose the frame
    node.lanes[1].lane.outgoing.out_tx.close();
    node.send(message.clone());
    assert_eq!(node.frame_hold.held.len(), 1);
    node.send_no_hold(message);
    assert_eq!(node.frame_hold.held.len(), 1);
    node.broadcast(ping(), &Some(n2.clone()));
    assert!(node.lanes[0].lane.outgoing.out_tx.items.is_empty());
    assert_eq!(node.lanes[2].lane.outgoing.out_tx.items, vec![LaneCommand::Frame(ping())]);
    node.reply(&n2, pong());
    assert_eq!(node.lanes[0].lane.outgoing.out_tx.items, vec![LaneCommand::Frame(pong())]);
}

#[test]
fn frame_timeout_resends() {
    let mut node = ProtoStar::new(Some(StarKey::new(1)), StarKind::Mesh);
    let n2 = StarKey::new(2);
    node.add_lane(ProtoLaneEndpoint::new(Some(n2.clone())));
    node.lanes[0].lane.outgoing.out_tx.items.clear();
    node.handle(
        StarCommand::FrameTimeout(starlane::star::FrameTimeoutInner {
            frame: Frame::Proto(ProtoFrame::CentralSearch),
            retries: 1,
        }),
        &None,
        0,
    );
    node.handle(StarCommand::Frame(ping()), &None, 0);
    node.handle(StarCommand::Frame(Frame::Proto(ProtoFrame::CentralSearch)), &Some(n2.clone()), 0);
    node.resend(ping());
    assert_eq!(
        node.lanes[0].lane.outgoing.out_tx.items,
        vec![LaneCommand::Frame(Frame::Proto(ProtoFrame::CentralSearch))]
    );
    let controller = starlane::lane::ConnectorController { command_tx: Channel::new() };
    node.handle(StarCommand::AddConnectorController(controller), &None, 0);
    assert_eq!(node.connector_ctrls.len(), 1);
}

#[test]
fn connectors_retry_and_stop() {
    let mut lane = ProtoLaneEndpoint::new(Some(StarKey::new(2)));
    let mut client = ClientSideTunnelConnector::new("localhost:4343".to_string());
    assert_eq!(
        client.attempted(&mut lane, Err(MeshError::Disconnected)),
        ConnectorStep::Retry(10)
    );
    assert_eq!(client.state, ConnectorState::Connecting);
    assert!(lane.outgoing.out_tx.items.is_empty());
    let (mut a, mut b) = local_tunnels(Some(StarKey::new(1)), Some(StarKey::new(2)));
    a.settle();
    b.settle();
    ProtoTunnel::exchange(&mut a, &mut b);
    assert_eq!(client.attempted(&mut lane, a.evolve()), ConnectorStep::Await);
    assert_eq!(client.state, ConnectorState::Connected);
    assert_eq!(lane.outgoing.out_tx.items.len(), 1);
    assert_eq!(lane.incoming.tunnel_receiver_rx.items.len(), 1);
    assert_eq!(
        client.commanded(&mut lane, Some(ConnectorCommand::Reset)),
        ConnectorStep::Attempt
    );
    assert_eq!(
        lane.outgoing.out_tx.items.last(),
        Some(&LaneCommand::Tunnel(TunnelOutState::Absent))
    );
    assert_eq!(client.commanded(&mut lane, None), ConnectorStep::Stop);
    assert_eq!(client.state, ConnectorState::Closed);
    assert_eq!(client.commanded(&mut lane, Some(ConnectorCommand::Reset)), ConnectorStep::Stop);

    let mut server = ServerSideTunnelConnector::new();
    assert!(server.take_stream().is_ok());
    assert_eq!(server.take_stream().unwrap_err().to_string(), "expected stream to be Some");
    assert_eq!(server.state, ConnectorState::Closed);
    let mut server = ServerSideTunnelConnector::new();
    assert_eq!(server.attempted(&mut lane, b.evolve()), ConnectorStep::Await);
    assert_eq!(
        server.commanded(&mut lane, Some(ConnectorCommand::Reset)),
        ConnectorStep::Stop
    );

    let mut high = ProtoLaneEndpoint::new(None);
    let mut low = ProtoLaneEndpoint::new(Some(StarKey::new(1)));
    let mut local = LocalTunnelConnector::new(&high, &low);
    assert_eq!(local.connect(&mut high, &mut low), ConnectorStep::Retry(10));
    assert!(high.outgoing.out_tx.items.is_empty());
    assert_eq!(
        local.commanded(&mut high, &mut low, Some(ConnectorCommand::Close)),
        ConnectorStep::Stop
    );
}

#[test]
fn frames_on_the_wire_carry_their_length() {
    let mut wire = vec![9u8];
    FrameCodex::send(&mut wire, &vec![1, 2, 3]).unwrap();
    assert_eq!(wire, vec![9, 0, 0, 0, 3, 1, 2, 3]);
    let mut wire = Vec::new();
    let long: Vec<u8> = (0..70000u32).map(|i| (i % 251) as u8).collect();
    FrameCodex::send(&mut wire, &long).unwrap();
    assert_eq!(&wire[..4], &[0, 1, 17, 112]);
    FrameCodex::send(&mut wire, &vec![]).unwrap();
    FrameCodex::send(&mut wire, &vec![7]).unwrap();
    wire.push(0);
    wire.push(0);
    assert_eq!(FrameCodex::receive(&mut wire), Some(long));
    assert_eq!(FrameCodex::receive(&mut wire), Some(vec![]));
    assert_eq!(FrameCodex::receive(&mut wire), Some(vec![7]));
    assert_eq!(FrameCodex::receive(&mut wire), None);
    assert_eq!(wire, vec![0, 0]);
    wire.extend([0, 2, 5]);
    assert_eq!(FrameCodex::receive(&mut wire), None);
    wire.push(6);
    assert_eq!(FrameCodex::receive(&mut wire), Some(vec![5, 6]));
    assert!(wire.is_empty());
}
