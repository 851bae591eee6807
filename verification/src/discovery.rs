//! The ceiling on paths to the central star. A node accepts no path of more
//! hops than a path may have and passes none on; so whatever arrives, no lane
//! of a node ever remembers the central star farther away than that.

use vstd::prelude::*;
use crate::cache::{
    cached_hops, entries_after_put, find_entry, lemma_cached_hops_step, lemma_get_keeps_hops,
};
use crate::channel::ChannelView;
use crate::frame::{FrameView, ProtoFrameView, StarMessagePayloadView, StarMessageView};
use crate::lane::{
    key_path, LaneCommandView, LaneEndpointView, ProtoLaneEndpointView, HOP_CACHE_LIMIT,
};
use crate::proto::{
    broadcast_lanes, central_found, central_search, kept_frames, lane_to, learned_lanes,
    lemma_best_lane_is_shortest, lemma_lane_to, poll_lanes, released_frames, routed_lanes,
    sequence_assignment, sequence_request, told_lanes, touched_lanes, FrameHoldView,
    LaneMetaView, ProtoStarState, ProtoStarView, TrackerCheckView, MAX_HOPS,
};
use crate::star::{StarCommandView, StarKey, StarKeyView, StarKind};

verus! {

/// Whether what a lane remembers of the central star, if anything, is a
/// number of hops that a path may have.
pub open spec fn lane_within_ceiling(lane: LaneMetaView) -> bool {
    cached_hops(lane.paths, key_path(StarKey::central_view())) matches Some(hops) ==> 1 <= hops
        <= MAX_HOPS
}

/// Whether every lane is within the ceiling.
pub open spec fn within_ceiling(lanes: Seq<LaneMetaView>) -> bool {
    forall|i: int| 0 <= i < lanes.len() ==> lane_within_ceiling(#[trigger] lanes[i])
}

/// After a put, the key is cached under what was put or, in a cache that
/// takes nothing, not at all.
pub proof fn lemma_put_same_key(
    entries: Seq<(Seq<u16>, usize)>,
    limit: nat,
    key: Seq<u16>,
    hops: usize,
)
    ensures
        cached_hops(entries_after_put(entries, limit, key, hops), key) == Some(hops) || (
        cached_hops(entries_after_put(entries, limit, key, hops), key).is_none() && cached_hops(
            entries,
            key,
        ).is_none()),
{
    let after = entries_after_put(entries, limit, key, hops);
    match find_entry(entries, key) {
        Some(i) => {
            lemma_cached_hops_step(after, key);
        },
        None => {
            if limit > 0 {
                lemma_cached_hops_step(after, key);
            }
        },
    }
}

/// Asking a lane for the hops to a star leaves it within the ceiling.
pub proof fn lemma_touched_within(lane: LaneMetaView, star: StarKeyView)
    requires
        lane_within_ceiling(lane),
    ensures
        lane_within_ceiling(lane.touched(star)),
{
    lemma_get_keeps_hops(lane.paths, key_path(star), key_path(StarKey::central_view()));
}

/// A lane that learns an acceptable number of hops to the central star
/// stays within the ceiling.
pub proof fn lemma_learned_within(lane: LaneMetaView, hops: usize)
    requires
        lane_within_ceiling(lane),
        1 <= hops <= MAX_HOPS,
    ensures
        lane_within_ceiling(lane.learned(StarKey::central_view(), hops)),
{
    lemma_put_same_key(lane.paths, lane.limit, key_path(StarKey::central_view()), hops);
}

/// Asking every lane leaves the lanes within the ceiling.
pub proof fn lemma_touched_lanes_within(lanes: Seq<LaneMetaView>, star: StarKeyView)
    requires
        within_ceiling(lanes),
    ensures
        within_ceiling(touched_lanes(lanes, star)),
{
    assert forall|i: int| 0 <= i < lanes.len() implies lane_within_ceiling(
        #[trigger] touched_lanes(lanes, star)[i],
    ) by {
        lemma_touched_within(lanes[i], star);
    }
}

/// Giving the lanes a frame leaves them within the ceiling.
pub proof fn lemma_broadcast_lanes_within(
    lanes: Seq<LaneMetaView>,
    frame: FrameView,
    exclude: Option<StarKeyView>,
)
    requires
        within_ceiling(lanes),
    ensures
        within_ceiling(broadcast_lanes(lanes, frame, exclude)),
{
    assert forall|i: int| 0 <= i < lanes.len() implies lane_within_ceiling(
        #[trigger] broadcast_lanes(lanes, frame, exclude)[i],
    ) by {
        assert(lane_within_ceiling(lanes[i]));
    }
}

/// Giving one lane a command leaves the lanes within the ceiling.
pub proof fn lemma_told_lanes_within(
    lanes: Seq<LaneMetaView>,
    star: StarKeyView,
    command: LaneCommandView,
)
    requires
        within_ceiling(lanes),
    ensures
        within_ceiling(told_lanes(lanes, star, command)),
{
    lemma_lane_to(lanes, star);
    let after = told_lanes(lanes, star, command);
    assert forall|i: int| 0 <= i < after.len() implies lane_within_ceiling(#[trigger] after[i]) by {
        assert(lane_within_ceiling(lanes[i]));
    }
}

/// Lanes of which one learns an acceptable number of hops to the central
/// star stay within the ceiling.
pub proof fn lemma_learned_lanes_within(lanes: Seq<LaneMetaView>, lane: StarKeyView, hops: usize)
    requires
        within_ceiling(lanes),
        1 <= hops <= MAX_HOPS,
    ensures
        within_ceiling(learned_lanes(lanes, lane, StarKey::central_view(), hops)),
{
    lemma_lane_to(lanes, lane);
    let after = learned_lanes(lanes, lane, StarKey::central_view(), hops);
    assert forall|i: int| 0 <= i < after.len() implies lane_within_ceiling(#[trigger] after[i]) by {
        assert(lane_within_ceiling(lanes[i]));
        lemma_learned_within(lanes[i], hops);
    }
}

/// Routing a frame leaves the lanes within the ceiling.
pub proof fn lemma_routed_lanes_within(
    lanes: Seq<LaneMetaView>,
    star: StarKeyView,
    frame: FrameView,
)
    requires
        within_ceiling(lanes),
    ensures
        within_ceiling(routed_lanes(lanes, star, frame)),
{
    lemma_touched_lanes_within(lanes, star);
    lemma_best_lane_is_shortest(lanes, star, lanes.len() as int);
    let after = routed_lanes(lanes, star, frame);
    assert forall|i: int| 0 <= i < after.len() implies lane_within_ceiling(#[trigger] after[i]) by {
        assert(lane_within_ceiling(touched_lanes(lanes, star)[i]));
    }
}

/// Asking the lanes for frames that arrived leaves them within the ceiling.
pub proof fn lemma_poll_lanes_within(lanes: Seq<LaneMetaView>, from: int)
    requires
        within_ceiling(lanes),
    ensures
        within_ceiling(poll_lanes(lanes, from).0),
        poll_lanes(lanes, from).0.len() == lanes.len(),
        poll_lanes(lanes, from).1 matches Some(found) ==> 0 <= found.0 < lanes.len(),
    decreases lanes.len() - from,
{
    if 0 <= from < lanes.len() {
        let polled = lanes[from].lane.incoming.recv();
        let after = lanes.update(
            from,
            LaneMetaView {
                lane: LaneEndpointView { incoming: polled.0, ..lanes[from].lane },
                ..lanes[from]
            },
        );
        assert forall|i: int| 0 <= i < after.len() implies lane_within_ceiling(
            #[trigger] after[i],
        ) by {
            assert(lane_within_ceiling(lanes[i]));
        }
        if polled.1 is None {
            lemma_poll_lanes_within(after, from + 1);
        }
    }
}

/// Sending frames towards a star leaves the lanes of a node within the
/// ceiling.
pub proof fn lemma_send_all_within(node: ProtoStarView, star: StarKeyView, frames: Seq<FrameView>)
    requires
        within_ceiling(node.lanes),
    ensures
        within_ceiling(node.send_all(star, frames).lanes),
    decreases frames.len(),
{
    if frames.len() > 0 {
        lemma_send_all_within(node, star, frames.drop_last());
        lemma_routed_lanes_within(
            node.send_all(star, frames.drop_last()).lanes,
            star,
            frames.last(),
        );
    }
}

/// A frame that went unanswered is sent once more without a lane leaving
/// the ceiling.
pub proof fn lemma_resend_within(node: ProtoStarView, frame: FrameView)
    requires
        within_ceiling(node.lanes),
    ensures
        within_ceiling(node.resend(frame).lanes),
{
    match frame {
        FrameView::Proto(ProtoFrameView::RequestSubgraphExpansion) => {
            lemma_broadcast_lanes_within(node.lanes, frame, None);
        },
        FrameView::Proto(ProtoFrameView::CentralSearch) => {
            lemma_broadcast_lanes_within(node.lanes, frame, None);
        },
        FrameView::StarMessage(message) => {
            lemma_routed_lanes_within(node.lanes, message.to, frame);
        },
        _ => {},
    }
}

/// The search for the central star begins without a lane leaving the
/// ceiling.
pub proof fn lemma_send_central_search_within(node: ProtoStarView, now: u64)
    requires
        within_ceiling(node.lanes),
    ensures
        within_ceiling(node.send_central_search(now).lanes),
{
    lemma_broadcast_lanes_within(node.lanes, central_search(), None);
}

/// The request for a sequence is made without a lane leaving the ceiling.
pub proof fn lemma_send_sequence_request_within(node: ProtoStarView, now: u64)
    requires
        within_ceiling(node.lanes),
    ensures
        within_ceiling(node.send_sequence_request(now).lanes),
{
    match node.star_key {
        Some(key) => {
            lemma_routed_lanes_within(
                node.lanes,
                StarKey::central_view(),
                sequence_request(key),
            );
        },
        None => {},
    }
}

/// The bootstrap begins without a lane leaving the ceiling.
pub proof fn lemma_start_within(node: ProtoStarView, now: u64)
    requires
        within_ceiling(node.lanes),
    ensures
        within_ceiling(node.start(now).lanes),
{
    if node.kind != StarKind::Central {
        lemma_send_central_search_within(node, now);
        let searching = node.send_central_search(now);
        if searching.star_key is None {
            lemma_broadcast_lanes_within(
                searching.lanes,
                FrameView::Proto(ProtoFrameView::RequestSubgraphExpansion),
                None,
            );
        }
    }
}

/// The ceiling holds against every frame: whatever frame arrives on
/// whatever lane, a node whose lanes are within the ceiling has lanes within
/// the ceiling afterwards. In particular a path of more hops than a path may
/// have is never remembered.
pub proof fn lemma_frame_keeps_ceiling(
    node: ProtoStarView,
    lane: StarKeyView,
    frame: FrameView,
    now: u64,
)
    requires
        within_ceiling(node.lanes),
    ensures
        within_ceiling(node.handle_frame(lane, frame, now).lanes),
{
    let noted = ProtoStarView { tracker: node.tracker.process(frame), ..node };
    match frame {
        FrameView::Proto(ProtoFrameView::CentralSearch) => {
            if noted.is_central() {
                lemma_told_lanes_within(
                    noted.lanes,
                    lane,
                    LaneCommandView::Frame(central_found(1)),
                );
            } else {
                lemma_touched_lanes_within(noted.lanes, StarKey::central_view());
                let asked = noted.touched(StarKey::central_view());
                match noted.hops_to(StarKey::central_view()) {
                    Some(hops) => {
                        if hops < MAX_HOPS {
                            lemma_told_lanes_within(
                                asked.lanes,
                                lane,
                                LaneCommandView::Frame(
                                    central_found((hops + 1) as i32),
                                ),
                            );
                        }
                    },
                    None => {},
                }
            }
        },
        FrameView::Proto(ProtoFrameView::CentralFound(hops)) => {
            if !(noted.is_central() || !ProtoStarView::acceptable_hops(hops)) {
                lemma_learned_lanes_within(noted.lanes, lane, hops as usize);
                let learned = ProtoStarView {
                    lanes: learned_lanes(
                        noted.lanes,
                        lane,
                        StarKey::central_view(),
                        hops as usize,
                    ),
                    ..noted
                };
                let told = if hops < MAX_HOPS {
                    learned.broadcast(central_found((hops + 1) as i32), Some(lane))
                } else {
                    learned
                };
                if hops < MAX_HOPS {
                    lemma_broadcast_lanes_within(
                        learned.lanes,
                        central_found((hops + 1) as i32),
                        Some(lane),
                    );
                }
                lemma_send_sequence_request_within(told, now);
            }
        },
        FrameView::Proto(ProtoFrameView::GrantSubgraphExpansion(path)) => {
            if noted.state != ProtoStarState::Evolved {
                lemma_send_central_search_within(
                    ProtoStarView {
                        star_key: Some(StarKeyView { subgraph: path, index: 0 }),
                        state: ProtoStarState::SearchingCentral,
                        ..noted
                    },
                    now,
                );
            }
        },
        FrameView::Proto(ProtoFrameView::RequestSubgraphExpansion) => {
            if noted.serves() && noted.next_subgraph < u16::MAX {
                lemma_told_lanes_within(
                    noted.lanes,
                    lane,
                    LaneCommandView::Frame(
                        FrameView::Proto(
                            ProtoFrameView::GrantSubgraphExpansion(seq![noted.next_subgraph]),
                        ),
                    ),
                );
            }
        },
        FrameView::StarMessage(message) => {
            lemma_message_keeps_ceiling(noted, message);
        },
        _ => {},
    }
}

/// A message leaves the lanes of a node within the ceiling.
pub proof fn lemma_message_keeps_ceiling(node: ProtoStarView, message: StarMessageView)
    requires
        within_ceiling(node.lanes),
    ensures
        within_ceiling(node.on_message(message).lanes),
{
    match node.star_key {
        None => {},
        Some(key) => {
            if message.to == key {
                match message.payload {
                    StarMessagePayloadView::RequestSequence => {
                        if node.serves() && node.next_sequence < i64::MAX {
                            lemma_routed_lanes_within(
                                node.lanes,
                                message.from,
                                FrameView::StarMessage(
                                    sequence_assignment(
                                        key,
                                        message,
                                        node.next_sequence,
                                    ),
                                ),
                            );
                        }
                    },
                    _ => {},
                }
            } else {
                lemma_routed_lanes_within(node.lanes, message.to, FrameView::StarMessage(message));
            }
        },
    }
}

/// A new lane leaves the lanes of a node within the ceiling: it has learned
/// nothing yet.
pub proof fn lemma_add_lane_within(node: ProtoStarView, lane: ProtoLaneEndpointView)
    requires
        within_ceiling(node.lanes),
    ensures
        within_ceiling(node.add_lane(lane).lanes),
{
    match lane.remote_star {
        None => {},
        Some(remote) => {
            lemma_lane_to(node.lanes, remote);
            let meta = LaneMetaView {
                paths: Seq::empty(),
                limit: HOP_CACHE_LIMIT as nat,
                lane: LaneEndpointView {
                    remote_star: remote,
                    incoming: lane.incoming,
                    outgoing: lane.outgoing,
                },
            };
            assert(lane_within_ceiling(meta));
            let lanes = match lane_to(node.lanes, remote) {
                Some(i) => node.lanes.update(i, meta),
                None => node.lanes.push(meta),
            };
            assert forall|i: int| 0 <= i < lanes.len() implies lane_within_ceiling(
                #[trigger] lanes[i],
            ) by {
                if i < node.lanes.len() {
                    assert(lane_within_ceiling(node.lanes[i]));
                }
            }
            let taken = ProtoStarView {
                lanes,
                frame_hold: FrameHoldView {
                    held: kept_frames(node.frame_hold.held, remote),
                },
                ..node
            };
            let frames = released_frames(node.frame_hold.held, remote);
            lemma_send_all_within(taken, remote, frames);
            lemma_broadcast_lanes_within(
                taken.send_all(remote, frames).lanes,
                central_search(),
                None,
            );
        },
    }
}

/// The ceiling holds in every state that a node can come to: a fresh node
/// is within the ceiling, and whatever the node takes up next leaves it
/// there.
pub proof fn lemma_node_stays_within_ceiling(node: ProtoStarView, now: u64)
    requires
        within_ceiling(node.lanes),
    ensures
        within_ceiling(node.evolve(now).0.lanes),
{
    lemma_poll_lanes_within(node.lanes, 0);
    let polled = poll_lanes(node.lanes, 0);
    let asked = ProtoStarView { lanes: polled.0, ..node };
    match polled.1 {
        Some(found) => {
            lemma_frame_keeps_ceiling(asked, polled.0[found.0].lane.remote_star, found.1, now);
        },
        None => {
            if asked.command_rx.items.len() > 0 {
                let taken = ProtoStarView {
                    command_rx: ChannelView {
                        items: asked.command_rx.items.drop_first(),
                        ..asked.command_rx
                    },
                    ..asked
                };
                lemma_command_keeps_ceiling(taken, asked.command_rx.items[0], None, now);
            } else {
                let checked = asked.tracker.check(now);
                let looked = ProtoStarView { tracker: checked.0, ..asked };
                match checked.1 {
                    TrackerCheckView::Timeout(timeout) => {
                        lemma_resend_within(looked, timeout.frame);
                    },
                    _ => {},
                }
            }
        },
    }
}

/// A command leaves the lanes of a node within the ceiling.
pub proof fn lemma_command_keeps_ceiling(
    node: ProtoStarView,
    command: StarCommandView,
    lane: Option<StarKeyView>,
    now: u64,
)
    requires
        within_ceiling(node.lanes),
    ensures
        within_ceiling(node.handle(command, lane, now).lanes),
{
    match command {
        StarCommandView::AddLane(added) => {
            lemma_add_lane_within(node, added);
        },
        StarCommandView::AddConnectorController(_) => {},
        StarCommandView::Frame(frame) => {
            match lane {
                Some(lane) => {
                    lemma_frame_keeps_ceiling(node, lane, frame, now);
                },
                None => {},
            }
        },
        StarCommandView::FrameTimeout(timeout) => {
            lemma_resend_within(node, timeout.frame);
        },
        StarCommandView::Init => {
            lemma_start_within(node, now);
        },
    }
}

/// A node before its bootstrap is within the ceiling: it has no lanes.
pub proof fn lemma_fresh_node_within_ceiling(key: Option<StarKeyView>, kind: StarKind)
    ensures
        within_ceiling(ProtoStarView::fresh(key, kind).lanes),
{
}

/// Whether the lanes `after` begin with lanes to the same neighbours as
/// the lanes `before`, in the same order.
pub open spec fn same_neighbours(before: Seq<LaneMetaView>, after: Seq<LaneMetaView>) -> bool {
    before.len() <= after.len() && forall|i: int|
        0 <= i < before.len() ==> (#[trigger] after[i]).lane.remote_star
            == before[i].lane.remote_star
}

/// Routing a frame changes the neighbour of no lane.
pub proof fn lemma_routed_lanes_same_neighbours(
    lanes: Seq<LaneMetaView>,
    star: StarKeyView,
    frame: FrameView,
)
    ensures
        same_neighbours(lanes, routed_lanes(lanes, star, frame)),
        routed_lanes(lanes, star, frame).len() == lanes.len(),
{
    lemma_best_lane_is_shortest(lanes, star, lanes.len() as int);
}

/// Asking the lanes for frames that arrived changes the neighbour of no
/// lane.
pub proof fn lemma_poll_lanes_same_neighbours(lanes: Seq<LaneMetaView>, from: int)
    ensures
        same_neighbours(lanes, poll_lanes(lanes, from).0),
        poll_lanes(lanes, from).0.len() == lanes.len(),
    decreases lanes.len() - from,
{
    if 0 <= from < lanes.len() {
        let polled = lanes[from].lane.incoming.recv();
        let after = lanes.update(
            from,
            LaneMetaView {
                lane: LaneEndpointView { incoming: polled.0, ..lanes[from].lane },
                ..lanes[from]
            },
        );
        if polled.1 is None {
            lemma_poll_lanes_same_neighbours(after, from + 1);
            let last = poll_lanes(after, from + 1).0;
            assert forall|i: int| 0 <= i < lanes.len() implies (#[trigger] last[i]).lane.remote_star
                == lanes[i].lane.remote_star by {
                assert(after[i].lane.remote_star == lanes[i].lane.remote_star);
            }
        }
    }
}

/// Sending frames towards a star changes the neighbour of no lane.
pub proof fn lemma_send_all_same_neighbours(
    node: ProtoStarView,
    star: StarKeyView,
    frames: Seq<FrameView>,
)
    ensures
        same_neighbours(node.lanes, node.send_all(star, frames).lanes),
        node.send_all(star, frames).lanes.len() == node.lanes.len(),
    decreases frames.len(),
{
    if frames.len() > 0 {
        lemma_send_all_same_neighbours(node, star, frames.drop_last());
        let before = node.send_all(star, frames.drop_last()).lanes;
        lemma_routed_lanes_same_neighbours(before, star, frames.last());
        let after = node.send_all(star, frames).lanes;
        assert forall|i: int| 0 <= i < node.lanes.len() implies (#[trigger] after[i]).lane.remote_star
            == node.lanes[i].lane.remote_star by {
            assert(before[i].lane.remote_star == node.lanes[i].lane.remote_star);
        }
    }
}

/// A frame changes the neighbour of no lane, and takes no lane away.
pub proof fn lemma_frame_keeps_neighbours(
    node: ProtoStarView,
    lane: StarKeyView,
    frame: FrameView,
    now: u64,
)
    ensures
        same_neighbours(node.lanes, node.handle_frame(lane, frame, now).lanes),
        node.handle_frame(lane, frame, now).lanes.len() == node.lanes.len(),
{
    lemma_lane_to(node.lanes, lane);
    lemma_best_lane_is_shortest(
        node.lanes,
        StarKey::central_view(),
        node.lanes.len() as int,
    );
    let noted = ProtoStarView { tracker: node.tracker.process(frame), ..node };
    match frame {
        FrameView::Proto(ProtoFrameView::CentralSearch) => {
            lemma_lane_to(touched_lanes(noted.lanes, StarKey::central_view()), lane);
        },
        FrameView::Proto(ProtoFrameView::CentralFound(hops)) => {
            if !(noted.is_central() || !ProtoStarView::acceptable_hops(hops)) {
                let learned = ProtoStarView {
                    lanes: learned_lanes(
                        noted.lanes,
                        lane,
                        StarKey::central_view(),
                        hops as usize,
                    ),
                    ..noted
                };
                let told = if hops < MAX_HOPS {
                    learned.broadcast(central_found((hops + 1) as i32), Some(lane))
                } else {
                    learned
                };
                match told.star_key {
                    Some(key) => {
                        lemma_routed_lanes_same_neighbours(
                            told.lanes,
                            StarKey::central_view(),
                            sequence_request(key),
                        );
                        let last = routed_lanes(
                            told.lanes,
                            StarKey::central_view(),
                            sequence_request(key),
                        );
                        assert forall|i: int| 0 <= i < node.lanes.len() implies (
                        #[trigger] last[i]).lane.remote_star == node.lanes[i].lane.remote_star by {
                            assert(told.lanes[i].lane.remote_star
                                == node.lanes[i].lane.remote_star);
                        }
                    },
                    None => {},
                }
            }
        },
        FrameView::StarMessage(message) => {
            lemma_routed_lanes_same_neighbours(noted.lanes, message.to, frame);
            match noted.star_key {
                Some(key) => {
                    lemma_routed_lanes_same_neighbours(
                        noted.lanes,
                        message.from,
                        FrameView::StarMessage(
                            sequence_assignment(key, message, noted.next_sequence),
                        ),
                    );
                },
                None => {},
            }
        },
        _ => {},
    }
}

/// The neighbour of a lane never changes: whatever a node takes up, the
/// lanes that it had lead to the stars that they led to, in the same places,
/// and no lane is lost. A lane that is given to the node for a star to which
/// it has a lane takes the place of that lane; any other takes a place of its
/// own behind the others.
pub proof fn lemma_lanes_keep_their_neighbours(node: ProtoStarView, now: u64)
    ensures
        same_neighbours(node.lanes, node.evolve(now).0.lanes),
{
    lemma_poll_lanes_same_neighbours(node.lanes, 0);
    let polled = poll_lanes(node.lanes, 0);
    let asked = ProtoStarView { lanes: polled.0, ..node };
    let after = node.evolve(now).0.lanes;
    match polled.1 {
        Some(found) => {
            lemma_frame_keeps_neighbours(asked, polled.0[found.0].lane.remote_star, found.1, now);
        },
        None => {
            if asked.command_rx.items.len() > 0 {
                let taken = ProtoStarView {
                    command_rx: ChannelView {
                        items: asked.command_rx.items.drop_first(),
                        ..asked.command_rx
                    },
                    ..asked
                };
                lemma_command_keeps_neighbours(taken, asked.command_rx.items[0], None, now);
            } else {
                let checked = asked.tracker.check(now);
                let looked = ProtoStarView { tracker: checked.0, ..asked };
                match checked.1 {
                    TrackerCheckView::Timeout(timeout) => {
                        lemma_resend_keeps_neighbours(looked, timeout.frame);
                    },
                    _ => {},
                }
            }
        },
    }
    assert forall|i: int| 0 <= i < node.lanes.len() implies (#[trigger] after[i]).lane.remote_star
        == node.lanes[i].lane.remote_star by {
        assert(asked.lanes[i].lane.remote_star == node.lanes[i].lane.remote_star);
    }
}

/// A frame that is sent once more changes the neighbour of no lane.
pub proof fn lemma_resend_keeps_neighbours(node: ProtoStarView, frame: FrameView)
    ensures
        same_neighbours(node.lanes, node.resend(frame).lanes),
{
    match frame {
        FrameView::StarMessage(message) => {
            lemma_routed_lanes_same_neighbours(node.lanes, message.to, frame);
        },
        _ => {},
    }
}

/// A command changes the neighbour of no lane, and takes no lane away.
pub proof fn lemma_command_keeps_neighbours(
    node: ProtoStarView,
    command: StarCommandView,
    lane: Option<StarKeyView>,
    now: u64,
)
    ensures
        same_neighbours(node.lanes, node.handle(command, lane, now).lanes),
{
    match command {
        StarCommandView::AddLane(added) => {
            match added.remote_star {
                None => {},
                Some(remote) => {
                    lemma_lane_to(node.lanes, remote);
                    let meta = LaneMetaView {
                        paths: Seq::empty(),
                        limit: HOP_CACHE_LIMIT as nat,
                        lane: LaneEndpointView {
                            remote_star: remote,
                            incoming: added.incoming,
                            outgoing: added.outgoing,
                        },
                    };
                    let lanes = match lane_to(node.lanes, remote) {
                        Some(i) => node.lanes.update(i, meta),
                        None => node.lanes.push(meta),
                    };
                    let taken = ProtoStarView {
                        lanes,
                        frame_hold: FrameHoldView {
                            held: kept_frames(node.frame_hold.held, remote),
                        },
                        ..node
                    };
                    let frames = released_frames(node.frame_hold.held, remote);
                    lemma_send_all_same_neighbours(taken, remote, frames);
                    let after = node.handle(command, lane, now).lanes;
                    assert forall|i: int| 0 <= i < node.lanes.len() implies (
                    #[trigger] after[i]).lane.remote_star == node.lanes[i].lane.remote_star by {
                        assert(lanes[i].lane.remote_star == node.lanes[i].lane.remote_star);
                        assert(taken.send_all(remote, frames).lanes[i].lane.remote_star
                            == lanes[i].lane.remote_star);
                    }
                },
            }
        },
        StarCommandView::AddConnectorController(_) => {},
        StarCommandView::Frame(frame) => {
            match lane {
                Some(lane) => {
                    lemma_frame_keeps_neighbours(node, lane, frame, now);
                },
                None => {},
            }
        },
        StarCommandView::FrameTimeout(timeout) => {
            lemma_resend_keeps_neighbours(node, timeout.frame);
        },
        StarCommandView::Init => {},
    }
}

} // verus!
