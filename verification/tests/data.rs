use starlane::application::AppKind;
use starlane::entity::EntityKey;
use starlane::error::{Error, Fail, MeshError};
use starlane::frame::{
    ApplicationLookup, EntityLookup, Frame, FrameDiagnose, ProtoFrame, Rejection,
    ResourceNameLookup, SearchHit, StarMessage, StarMessagePayload, StarSearch,
    StarSearchPattern, StarSearchResult,
};
use starlane::id::{Id, IdSeq};
use starlane::keys::{
    ActorKey, AppFilesystemKey, AppId, AppKey, ArtifactKey, FileKey, FileSystemKey, Priviledges,
    ResourceKey, ResourceManagerKey, ResourceType, SpaceKey, SubSpaceFilesystemKey, SubSpaceId,
    SubSpaceKey, UserId, UserKey,
};
use starlane::lane::{
    Chamber, IncomingSide, LaneIndex, LaneMeta, LaneWrapper, ProtoLaneEndpoint, TunnelIn,
    TunnelInState, TunnelOutState,
};
use starlane::star::{StarCommand, StarKey, StarKind};
use starlane::text::{append_int, decimal_string, same_text};
use starlane::channel::{Channel, Received};

#[test]
fn numbers_are_written_in_decimal() {
    assert_eq!(decimal_string(0), "0");
    assert_eq!(decimal_string(7), "7");
    assert_eq!(decimal_string(10), "10");
    assert_eq!(decimal_string(u64::MAX), "18446744073709551615");
    let mut s = "n=".to_string();
    append_int(&mut s, -305);
    append_int(&mut s, 0);
    append_int(&mut s, i64::MIN);
    append_int(&mut s, i64::MAX);
    assert_eq!(s, "n=-3050-92233720368547758089223372036854775807");
    assert!(same_text("héllo", "héllo"));
    assert!(!same_text("hello", "hellO"));
    assert!(!same_text("hello", "hell"));
}

#[test]
fn star_keys_have_a_text_and_an_identity() {
    assert_eq!(StarKey::central().to_string(), "[]-0");
    assert_eq!(StarKey::new(7).to_string(), "[]-7");
    assert_eq!(StarKey::new_with_subgraph(vec![1, 20, 300], 4).to_string(), "[1, 20, 300]-4");
    assert!(StarKey::central().is_central());
    assert!(!StarKey::new(1).is_central());
    assert!(!StarKey::new_with_subgraph(vec![0], 0).is_central());
    let key = StarKey::new_with_subgraph(vec![1, 2], 3);
    assert!(key.same(&key.clone()));
    assert!(!key.same(&StarKey::new_with_subgraph(vec![1, 2], 4)));
    assert!(!key.same(&StarKey::new_with_subgraph(vec![1, 3], 3)));
    assert!(!key.same(&StarKey::new_with_subgraph(vec![1], 3)));
    assert!(StarKind::Central.is_central());
    assert!(!StarKind::Gateway.is_central());
}

#[test]
fn identifiers_run_until_they_are_used_up() {
    let mut seq = IdSeq::new(4);
    assert_eq!(seq.sequence(), 4);
    assert_eq!(seq.next(), Some(Id::new(4, 0)));
    assert_eq!(seq.next(), Some(Id { sequence: 4, index: 1 }));
}

#[test]
fn space_keys_and_their_indices() {
    assert_eq!(SpaceKey::from_index(0), SpaceKey::HyperSpace);
    assert_eq!(SpaceKey::from_index(5), SpaceKey::Space(5));
    assert_eq!(SpaceKey::HyperSpace.index(), 0);
    assert_eq!(SpaceKey::Space(9).index(), 9);
    assert_eq!(SpaceKey::HyperSpace.to_string(), "HyperSpace");
    assert_eq!(SpaceKey::Space(42).to_string(), "42");
    assert_eq!(SubSpaceId::from_index(0), SubSpaceId::Default);
    assert_eq!(SubSpaceId::from_index(3), SubSpaceId::Index(3));
    assert_eq!(SubSpaceId::Default.index(), 0);
    assert_eq!(SubSpaceId::Index(8).index(), 8);
    assert_eq!(SubSpaceId::Default.to_string(), "Default");
    assert_eq!(SubSpaceId::Index(8).to_string(), "8");
    let hyper = SubSpaceKey::hyper_default();
    assert_eq!(hyper, SubSpaceKey::new(SpaceKey::HyperSpace, SubSpaceId::Default));
    assert_eq!(hyper.to_string(), "HyperSpace-Default");
    assert_eq!(SubSpaceKey::new(SpaceKey::Space(2), SubSpaceId::Index(3)).to_string(), "2-3");
}

#[test]
fn users_and_their_privileges() {
    assert!(UserKey::hyper_user().is_hyperuser());
    assert!(!UserKey::super_user(SpaceKey::Space(1)).is_hyperuser());
    assert!(!UserKey::annonymous(SpaceKey::HyperSpace).is_hyperuser());
    assert_eq!(UserKey::hyper_user().privileges(), Priviledges::all());
    assert_eq!(UserKey::annonymous(SpaceKey::HyperSpace).privileges(), Priviledges::new());
    assert_eq!(
        UserKey::with_id(SpaceKey::Space(1), UserId::Uuid(7)),
        UserKey { space: SpaceKey::Space(1), id: UserId::Uuid(7) }
    );
    let one = UserKey::new(SpaceKey::Space(1));
    let other = UserKey::new(SpaceKey::Space(1));
    assert!(matches!(one.id, UserId::Uuid(_)));
    assert_ne!(one, other);
    assert!(matches!(UserId::new(), UserId::Uuid(_)));
    assert_eq!(UserId::from_uuid(7), UserId::Uuid(7));
    assert_eq!(AppId::from_uuid(9), AppId::Uuid(9));
    assert!(matches!(AppId::new(), AppId::Uuid(_)));
    assert_ne!(AppKey::new(SubSpaceKey::hyper_default()), AppKey::new(SubSpaceKey::hyper_default()));
}

#[test]
fn resource_keys_know_their_family() {
    let space = SpaceKey::Space(3);
    let sub_space = SubSpaceKey::new(space, SubSpaceId::Index(1));
    let app = AppKey { sub_space, id: AppId::HyperApp };
    let actor = ActorKey { app, id: Id::new(1, 2) };
    let user = UserKey::super_user(space);
    let artifact = ArtifactKey { sub_space, id: 9 };
    let app_fs = FileSystemKey::App(AppFilesystemKey { app, id: 1 });
    let sub_fs = FileSystemKey::SubSpace(SubSpaceFilesystemKey { sub_space, id: 2 });
    let file = FileKey { filesystem: app_fs, id: 5 };

    assert_eq!(ResourceKey::Space(space).parent(), None);
    assert_eq!(ResourceKey::SubSpace(sub_space).parent(), Some(ResourceKey::Space(space)));
    assert_eq!(ResourceKey::App(app).parent(), Some(ResourceKey::SubSpace(sub_space)));
    assert_eq!(ResourceKey::Actor(actor).parent(), Some(ResourceKey::App(app)));
    assert_eq!(ResourceKey::User(user).parent(), Some(ResourceKey::Space(space)));
    assert_eq!(ResourceKey::Artifact(artifact).parent(), Some(ResourceKey::SubSpace(sub_space)));
    assert_eq!(ResourceKey::File(file).parent(), Some(ResourceKey::FileSystem(app_fs)));
    assert_eq!(ResourceKey::FileSystem(app_fs).parent(), Some(ResourceKey::App(app)));
    assert_eq!(ResourceKey::FileSystem(sub_fs).parent(), Some(ResourceKey::SubSpace(sub_space)));

    for key in [
        ResourceKey::Space(space),
        ResourceKey::SubSpace(sub_space),
        ResourceKey::App(app),
        ResourceKey::Actor(actor),
        ResourceKey::User(user),
        ResourceKey::Artifact(artifact),
        ResourceKey::File(file),
        ResourceKey::FileSystem(sub_fs),
    ] {
        assert_eq!(key.space(), space);
    }
    assert_eq!(ResourceKey::Actor(actor).actor(), Ok(actor));
    assert_eq!(ResourceKey::App(app).actor(), Err(Fail::WrongResourceType));
    assert_eq!(ResourceKey::App(app).app(), Ok(app));
    assert_eq!(ResourceKey::Space(space).app(), Err(Fail::WrongResourceType));
    assert_eq!(ResourceKey::File(file).file(), Ok(file));
    assert_eq!(ResourceKey::User(user).file(), Err(Fail::WrongResourceType));
    assert_eq!(
        ResourceKey::Actor(actor).manager(),
        ResourceManagerKey::Key(ResourceKey::App(app))
    );
    assert_eq!(ResourceKey::File(file).manager(), ResourceManagerKey::Central);
    assert_eq!(ResourceKey::FileSystem(app_fs).resource_type(), ResourceType::FileSystem);
    assert_eq!(ResourceKey::Artifact(artifact).resource_type(), ResourceType::Artifact);
    assert_eq!(ResourceKey::File(file).sub_space(), Ok(sub_space));
    assert_eq!(ResourceKey::Actor(actor).sub_space(), Ok(sub_space));
    assert_eq!(
        ResourceKey::Space(space).sub_space(),
        Err(Error::new("space does not have a subspace"))
    );
    assert_eq!(
        ResourceKey::User(user).sub_space().unwrap_err().to_string(),
        "user does not have a sub_space"
    );
    assert_eq!(app_fs.to_string(), "App");
    assert_eq!(sub_fs.to_string(), "SubSpace");
    assert_eq!(sub_fs.sub_space(), sub_space);
}

#[test]
fn frames_have_a_text() {
    let texts = [
        (Frame::Close, "Close"),
        (Frame::Diagnose(FrameDiagnose::Ping), "Diagnose(Ping)"),
        (Frame::Diagnose(FrameDiagnose::Pong), "Diagnose(Pong)"),
        (
            Frame::Proto(ProtoFrame::StarLaneProtocolVersion(-12)),
            "Proto(StarLaneProtocolVersion(-12))",
        ),
        (
            Frame::Proto(ProtoFrame::ReportStarKey(StarKey::new_with_subgraph(vec![1, 2], 3))),
            "Proto(ReportStarId([1, 2]-3))",
        ),
        (Frame::Proto(ProtoFrame::RequestSubgraphExpansion), "Proto(RequestSubgraphExpansion)"),
        (
            Frame::Proto(ProtoFrame::GrantSubgraphExpansion(vec![])),
            "Proto(GrantSubgraphExpansion([]))",
        ),
        (
            Frame::Proto(ProtoFrame::GrantSubgraphExpansion(vec![4, 5])),
            "Proto(GrantSubgraphExpansion([4, 5]))",
        ),
        (Frame::Proto(ProtoFrame::CentralSearch), "Proto(CentralSearch)"),
        (Frame::Proto(ProtoFrame::CentralFound(3)), "Proto(CentralFound)"),
        (
            Frame::StarMessage(StarMessage::new(
                Id::new(0, 0),
                StarKey::new(1),
                StarKey::new(2),
                StarMessagePayload::Reject(Rejection { message: "no".to_string() }),
            )),
            "StarMessage(Reject(no))",
        ),
        (
            Frame::StarMessage(StarMessage::new(
                Id::new(0, 0),
                StarKey::new(1),
                StarKey::new(2),
                StarMessagePayload::ApplicationLookup(ApplicationLookup { name: "n".to_string() }),
            )),
            "StarMessage(ApplicationLookupId)",
        ),
    ];
    for (frame, text) in texts {
        assert_eq!(frame.to_string(), text);
    }
    assert_eq!(StarMessagePayload::EntityStateRequest(EntityKey { app: Id::new(0, 1), id: Id::new(0, 2) }).to_string(), "ResourceStateRequest");
    assert_eq!(StarMessagePayload::RequestSequence.to_string(), "RequestSequence");
    assert_eq!(StarMessagePayload::AssignSequence(3).to_string(), "AssignSequence");
    assert_eq!(MeshError::VersionMismatch.to_string(), "VersionMismatch");
    assert_eq!(MeshError::ChannelClosed.to_string(), "ChannelClosed");
    assert_eq!(AppKind { name: "k".to_string() }.clone().name, "k");
}

#[test]
fn messages_and_searches_keep_their_books() {
    let a = StarKey::new(1);
    let b = StarKey::new_with_subgraph(vec![2], 1);
    let mut message =
        StarMessage::new(Id::new(1, 1), a.clone(), b.clone(), StarMessagePayload::RequestSequence);
    assert_eq!((message.retry, message.max_retries, message.transaction), (0, 16, None));
    message.inc_retry();
    message.inc_retry();
    assert_eq!(message.retry, 2);
    message.reply(Id::new(9, 9), StarMessagePayload::AssignSequence(5));
    assert_eq!((message.from.clone(), message.to.clone()), (b.clone(), a.clone()));
    assert_eq!(message.id, Id::new(1, 1));
    assert_eq!(message.retry, 0);
    assert_eq!(message.payload, StarMessagePayload::AssignSequence(5));
    let central =
        StarMessage::to_central(Id::new(1, 2), a.clone(), StarMessagePayload::RequestSequence);
    assert_eq!(central.to, StarKey::central());

    let mut search = StarSearch {
        from: a.clone(),
        pattern: StarSearchPattern::StarKind(StarKind::Supervisor),
        hops: vec![],
        transactions: vec![],
        max_hops: 8,
    };
    assert!(!search.pattern.is_single_match());
    assert!(StarSearchPattern::StarKey(a.clone()).is_single_match());
    search.inc(b.clone(), Id::new(1, 3));
    search.inc(a.clone(), Id::new(1, 4));
    assert_eq!(search.hops, vec![b.clone(), a.clone()]);
    assert_eq!(search.transactions, vec![Id::new(1, 3), Id::new(1, 4)]);
    let mut result = StarSearchResult {
        missed: None,
        hits: vec![SearchHit { star: b.clone(), hops: 1 }],
        search: search.clone(),
        transactions: vec![Id::new(1, 3)],
        hops: vec![b.clone(), a.clone()],
    };
    result.pop();
    assert_eq!((result.transactions.len(), result.hops.clone()), (0, vec![b.clone()]));
    result.pop();
    result.pop();
    assert!(result.hops.is_empty() && result.transactions.is_empty());
    assert_eq!(result.hits.len(), 1);
    assert_eq!(EntityLookup::Key(EntityKey { app: Id::new(3, 1), id: Id::new(3, 2) }).app_id(), Id::new(3, 1));
    assert_eq!(
        EntityLookup::Name(ResourceNameLookup { app_id: Id::new(4, 1), name: "n".to_string() })
            .app_id(),
        Id::new(4, 1)
    );
}

#[test]
fn lanes_of_either_kind() {
    let proto = ProtoLaneEndpoint::new(None);
    assert!(!proto.key_requestor);
    assert_eq!(
        ProtoLaneEndpoint::new(None).evolve().unwrap_err().to_string(),
        "star_key must be set before ProtoLaneEndpoint can evolve into a LaneEndpoint"
    );
    let mut wrapper = LaneWrapper::Proto(LaneMeta::new(proto));
    assert_eq!(wrapper.get_remote_star(), None);
    wrapper.set_remote_star(StarKey::new(3));
    assert_eq!(wrapper.get_remote_star(), Some(StarKey::new(3)));
    wrapper.set_remote_star(StarKey::new(8));
    assert_eq!(wrapper.get_remote_star(), Some(StarKey::new(3)));
    assert_eq!(wrapper.get_hops_to_star(&StarKey::new(3)), Some(1));
    wrapper.set_hops_to_star(StarKey::new(4), 2);
    assert_eq!(wrapper.get_hops_to_star(&StarKey::new(4)), Some(2));
    assert_eq!(wrapper.star_paths().len(), 1);
    assert!(wrapper.outgoing().out_tx.is_empty());
    assert_eq!(wrapper.incoming().recv(), None);
    let meta = wrapper.expect_proto_lane();
    let lane = meta.unwrap().evolve().unwrap();
    let mut wrapper = LaneWrapper::Lane(LaneMeta::new(lane));
    wrapper.set_remote_star(StarKey::new(9));
    assert_eq!(wrapper.get_remote_star(), Some(StarKey::new(3)));
    wrapper.set_hops_to_star(StarKey::new(5), 6);
    assert_eq!(wrapper.get_hops_to_star(&StarKey::new(5)), Some(6));
    assert_eq!(wrapper.expect_lane().lane.remote_star, StarKey::new(3));

    assert_eq!(LaneIndex::ProtoLane(4).expect_proto_lane(), Ok(4));
    assert_eq!(
        LaneIndex::Unassigned.expect_proto_lane().unwrap_err().to_string(),
        "expected proto lane"
    );
    assert_eq!(LaneIndex::Lane(StarKey::new(1)).expect_lane(), Ok(StarKey::new(1)));
    assert_eq!(LaneIndex::ProtoLane(1).expect_lane().unwrap_err().to_string(), "expected lane");
    assert!(LaneIndex::Lane(StarKey::new(1)).is_lane());
    assert!(!LaneIndex::Unassigned.is_lane());
    assert_eq!(Chamber::<u8>::new().holding, None);
    assert_eq!(TunnelOutState::Absent.to_string(), "None");
    assert_eq!(TunnelInState::Absent.to_string(), "None");
    assert_eq!(
        TunnelInState::In(TunnelIn { remote_star: StarKey::new(1), rx: Channel::new() })
            .to_string(),
        "Receiver"
    );
}

#[test]
fn receiving_side_moves_from_tunnel_to_tunnel() {
    let ping = Frame::Diagnose(FrameDiagnose::Ping);
    let mut side = IncomingSide::new();
    assert_eq!(side.recv(), None);
    assert_eq!(side.arrive(ping.clone()), Err(MeshError::ChannelClosed));
    let tunnel = |n: u16| TunnelInState::In(TunnelIn { remote_star: StarKey::new(n), rx: Channel::new() });
    side.tunnel_receiver_rx.send(tunnel(1)).unwrap();
    side.arrive(ping.clone()).unwrap();
    side.end_tunnel();
    side.tunnel_receiver_rx.send(TunnelInState::Absent).unwrap();
    side.tunnel_receiver_rx.send(tunnel(2)).unwrap();
    side.arrive(Frame::Close).unwrap();
    assert_eq!(side.recv(), Some(StarCommand::Frame(ping.clone())));
    // the first tunnel has ended
    assert_eq!(side.recv(), Some(StarCommand::Frame(Frame::Close)));
    assert_eq!(side.recv(), Some(StarCommand::Frame(Frame::Close)));
    assert_eq!(side.recv(), None);
    side.arrive(ping.clone()).unwrap();
    assert_eq!(side.recv(), Some(StarCommand::Frame(ping)));
    side.tunnel_receiver_rx.close();
    side.end_tunnel();
    assert_eq!(side.recv(), Some(StarCommand::Frame(Frame::Close)));
    assert_eq!(side.recv(), Some(StarCommand::Frame(Frame::Close)));
    let mut queue: Channel<Frame> = Channel::new();
    assert_eq!(queue.try_recv(), Received::Empty);
    queue.send(Frame::Close).unwrap();
    assert_eq!((queue.len(), queue.is_empty(), queue.is_closed()), (1, false, false));
    queue.close();
    assert_eq!(queue.send(Frame::Close), Err(MeshError::ChannelClosed));
    assert_eq!(queue.try_recv(), Received::Item(Frame::Close));
    assert_eq!(queue.try_recv(), Received::Closed);
}

#[test]
fn application_ids_are_written_and_read() {
    let bits = 0x0123_4567_89ab_cdef_0123_4567_89ab_cdefu128;
    assert_eq!(AppId::HyperApp.to_string(), "hyper-app");
    assert_eq!(AppId::Uuid(bits).to_string(), "01234567-89ab-cdef-0123-456789abcdef");
    assert_eq!(AppId::Uuid(1).to_string(), "00000000-0000-0000-0000-000000000001");
    assert_eq!(AppId::from_str("hyper-app"), Ok(AppId::HyperApp));
    assert_eq!(AppId::from_str("01234567-89AB-cdef-0123-456789abcdef"), Ok(AppId::Uuid(bits)));
    assert_eq!(AppId::from_str("0123456789abcdef0123456789abcdef"), Ok(AppId::Uuid(bits)));
    assert_eq!(
        AppId::from_str("hyper").unwrap_err().to_string(),
        "not an application id"
    );
    assert_eq!(AppId::HyperApp.encode(), Ok("aHlwZXItYXBw".to_string()));
    assert_eq!(AppId::decode("aHlwZXItYXBw".to_string()), Ok(AppId::HyperApp));
    let encoded = AppId::Uuid(bits).encode().unwrap();
    assert_eq!(encoded, "MDEyMzQ1NjctODlhYi1jZGVmLTAxMjMtNDU2Nzg5YWJjZGVm");
    assert_eq!(AppId::decode(encoded), Ok(AppId::Uuid(bits)));
    assert!(AppId::decode("not base 64!".to_string()).is_err());
    assert!(AppId::decode("/w==".to_string()).is_err());
    assert!(AppId::decode("aHlwZXI=".to_string()).is_err());
    assert_eq!(UserId::Super.to_string(), "super");
    assert_eq!(UserId::Annonymous.to_string(), "annonymous");
    assert_eq!(UserId::Uuid(bits).to_string(), "01234567-89ab-cdef-0123-456789abcdef");
    assert_eq!(UserKey::hyper_user().to_string(), "(HyperSpace,super)");
    assert_eq!(
        AppKey { sub_space: SubSpaceKey::hyper_default(), id: AppId::HyperApp }.to_string(),
        "(HyperSpace-Default,hyper-app)"
    );
}
