//! The frames that travel over a lane.

use vstd::prelude::*;
use crate::application::{AppInfo, AppInfoView, AppKind, AppKindView, AppLocation, AppLocationView};
use crate::entity::{EntityKey, EntityLocation, EntityLocationView};
use crate::id::Id;
use crate::keys::AppKey;
use crate::star::{StarKey, StarKeyView, StarKind};
use crate::text::{append_int, append_path, int_text, path_text};
use crate::user::{User, UserView};

verus! {

/// The mathematical value of a [`ProtoFrame`].
pub ghost enum ProtoFrameView {
    StarLaneProtocolVersion(i32),
    ReportStarKey(StarKeyView),
    RequestSubgraphExpansion,
    GrantSubgraphExpansion(Seq<u16>),
    CentralSearch,
    CentralFound(i32),
}

/// The frames of the handshake and of the search for the central star.
#[derive(Debug, PartialEq, Eq, Hash)]
pub enum ProtoFrame {
    /// The version of the lane protocol that the sender speaks.
    StarLaneProtocolVersion(i32),
    /// The identity of the sender.
    ReportStarKey(StarKey),
    /// The sender asks for a subgraph of its own.
    RequestSubgraphExpansion,
    /// The path of the subgraph that the receiver may use.
    GrantSubgraphExpansion(Vec<u16>),
    /// The sender looks for a path to the central star.
    CentralSearch,
    /// The central star is this many hops away through the sender.
    CentralFound(i32),
}

impl View for ProtoFrame {
    type V = ProtoFrameView;

    open spec fn view(&self) -> ProtoFrameView {
        match self {
            ProtoFrame::StarLaneProtocolVersion(a) => ProtoFrameView::StarLaneProtocolVersion(*a),
            ProtoFrame::ReportStarKey(a) => ProtoFrameView::ReportStarKey(a@),
            ProtoFrame::RequestSubgraphExpansion => ProtoFrameView::RequestSubgraphExpansion,
            ProtoFrame::GrantSubgraphExpansion(a) => ProtoFrameView::GrantSubgraphExpansion(a@),
            ProtoFrame::CentralSearch => ProtoFrameView::CentralSearch,
            ProtoFrame::CentralFound(a) => ProtoFrameView::CentralFound(*a),
        }
    }
}

impl DeepView for ProtoFrame {
    type V = ProtoFrameView;

    open spec fn deep_view(&self) -> ProtoFrameView {
        self@
    }
}

impl Clone for ProtoFrame {
    fn clone(&self) -> (r: Self)
        ensures
            r@ == self@,
    {
        match self {
            ProtoFrame::StarLaneProtocolVersion(a) => ProtoFrame::StarLaneProtocolVersion(*a),
            ProtoFrame::ReportStarKey(a) => ProtoFrame::ReportStarKey(a.clone()),
            ProtoFrame::RequestSubgraphExpansion => ProtoFrame::RequestSubgraphExpansion,
            ProtoFrame::GrantSubgraphExpansion(a) => {
                let b = a.clone();
                assert(b@ =~= a@);
                ProtoFrame::GrantSubgraphExpansion(b)
            },
            ProtoFrame::CentralSearch => ProtoFrame::CentralSearch,
            ProtoFrame::CentralFound(a) => ProtoFrame::CentralFound(*a),
        }
    }
}

/// The mathematical value of a [`Command`].
pub ghost struct CommandView {
    pub from: i32,
    pub frame: ProtoFrameView,
}

/// A handshake frame together with the place it came from.
#[derive(Debug, PartialEq, Eq, Hash)]
pub struct Command {
    pub from: i32,
    pub frame: ProtoFrame,
}

impl View for Command {
    type V = CommandView;

    open spec fn view(&self) -> CommandView {
        CommandView {
            from: self.from,
            frame: self.frame@,
        }
    }
}

impl DeepView for Command {
    type V = CommandView;

    open spec fn deep_view(&self) -> CommandView {
        self@
    }
}

impl Clone for Command {
    fn clone(&self) -> (r: Self)
        ensures
            r@ == self@,
    {
        let r = Command {
            from: self.from,
            frame: self.frame.clone(),
        };
        r
    }
}

/// Frames that only test a link.
#[derive(Clone, Copy, Debug, PartialEq, Eq, Hash, Structural)]
pub enum FrameDiagnose {
    Ping,
    Pong,
}

/// A watch on an entity.
#[derive(Clone, Copy, Debug, PartialEq, Eq, Hash, Structural)]
pub struct WatchInfo {
    pub id: Id,
    pub entity: EntityKey,
}

/// Setting and lifting a watch.
#[derive(Clone, Copy, Debug, PartialEq, Eq, Hash, Structural)]
pub enum Watch {
    Add(WatchInfo),
    Remove(WatchInfo),
}

/// The mathematical value of a [`StarAck`].
pub ghost struct StarAckView {
    pub to: StarKeyView,
    pub id: Id,
}

/// Acknowledges the message `id` to the star `to`.
#[derive(Debug, PartialEq, Eq, Hash)]
pub struct StarAck {
    pub to: StarKey,
    pub id: Id,
}

impl View for StarAck {
    type V = StarAckView;

    open spec fn view(&self) -> StarAckView {
        StarAckView {
            to: self.to@,
            id: self.id,
        }
    }
}

impl DeepView for StarAck {
    type V = StarAckView;

    open spec fn deep_view(&self) -> StarAckView {
        self@
    }
}

impl Clone for StarAck {
    fn clone(&self) -> (r: Self)
        ensures
            r@ == self@,
    {
        let r = StarAck {
            to: self.to.clone(),
            id: self.id,
        };
        r
    }
}

/// What a wind carries towards its target.
#[derive(Clone, Copy, Debug, PartialEq, Eq, Hash, Structural)]
pub enum StarWindPayload {
    RequestSequence,
}

/// What an unwind carries back.
#[derive(Clone, Copy, Debug, PartialEq, Eq, Hash, Structural)]
pub enum StarUnwindPayload {
    AssignSequence(i64),
}

/// The mathematical value of a [`StarWind`].
pub ghost struct StarWindView {
    pub to: StarKeyView,
    pub stars: Seq<StarKeyView>,
    pub payload: StarWindPayload,
}

/// A request that records the stars it passes on its way to `to`.
#[derive(Debug, PartialEq, Eq, Hash)]
pub struct StarWind {
    pub to: StarKey,
    pub stars: Vec<StarKey>,
    pub payload: StarWindPayload,
}

impl View for StarWind {
    type V = StarWindView;

    open spec fn view(&self) -> StarWindView {
        StarWindView {
            to: self.to@,
            stars: self.stars.deep_view(),
            payload: self.payload,
        }
    }
}

impl DeepView for StarWind {
    type V = StarWindView;

    open spec fn deep_view(&self) -> StarWindView {
        self@
    }
}

impl Clone for StarWind {
    fn clone(&self) -> (r: Self)
        ensures
            r@ == self@,
    {
        let r = StarWind {
            to: self.to.clone(),
            stars: self.stars.clone(),
            payload: self.payload,
        };
        assert(r.stars.deep_view() =~= self.stars.deep_view());
        r
    }
}

/// The mathematical value of a [`StarUnwind`].
pub ghost struct StarUnwindView {
    pub stars: Seq<StarKeyView>,
    pub payload: StarUnwindPayload,
}

/// The answer to a wind, sent back along the recorded stars.
#[derive(Debug, PartialEq, Eq, Hash)]
pub struct StarUnwind {
    pub stars: Vec<StarKey>,
    pub payload: StarUnwindPayload,
}

impl View for StarUnwind {
    type V = StarUnwindView;

    open spec fn view(&self) -> StarUnwindView {
        StarUnwindView {
            stars: self.stars.deep_view(),
            payload: self.payload,
        }
    }
}

impl DeepView for StarUnwind {
    type V = StarUnwindView;

    open spec fn deep_view(&self) -> StarUnwindView {
        self@
    }
}

impl Clone for StarUnwind {
    fn clone(&self) -> (r: Self)
        ensures
            r@ == self@,
    {
        let r = StarUnwind {
            stars: self.stars.clone(),
            payload: self.payload,
        };
        assert(r.stars.deep_view() =~= self.stars.deep_view());
        r
    }
}

/// The mathematical value of a [`StarSearchPattern`].
pub ghost enum StarSearchPatternView {
    StarKey(StarKeyView),
    StarKind(StarKind),
}

/// What a search looks for: one star, or every star of a kind.
#[derive(Debug, PartialEq, Eq, Hash)]
pub enum StarSearchPattern {
    StarKey(StarKey),
    StarKind(StarKind),
}

impl View for StarSearchPattern {
    type V = StarSearchPatternView;

    open spec fn view(&self) -> StarSearchPatternView {
        match self {
            StarSearchPattern::StarKey(a) => StarSearchPatternView::StarKey(a@),
            StarSearchPattern::StarKind(a) => StarSearchPatternView::StarKind(*a),
        }
    }
}

impl DeepView for StarSearchPattern {
    type V = StarSearchPatternView;

    open spec fn deep_view(&self) -> StarSearchPatternView {
        self@
    }
}

impl Clone for StarSearchPattern {
    fn clone(&self) -> (r: Self)
        ensures
            r@ == self@,
    {
        match self {
            StarSearchPattern::StarKey(a) => StarSearchPattern::StarKey(a.clone()),
            StarSearchPattern::StarKind(a) => StarSearchPattern::StarKind(*a),
        }
    }
}

impl StarSearchPattern {
    /// Whether at most one star can match the pattern.
    pub fn is_single_match(&self) -> (r: bool)
        ensures
            r == (self@ is StarKey),
    {
        match self {
            StarSearchPattern::StarKey(_) => true,
            StarSearchPattern::StarKind(_) => false,
        }
    }
}

/// The mathematical value of a [`StarSearch`].
pub ghost struct StarSearchView {
    pub from: StarKeyView,
    pub pattern: StarSearchPatternView,
    pub hops: Seq<StarKeyView>,
    pub transactions: Seq<Id>,
    pub max_hops: usize,
}

/// A search that floods the mesh, recording the stars it passed.
#[derive(Debug, PartialEq, Eq, Hash)]
pub struct StarSearch {
    pub from: StarKey,
    pub pattern: StarSearchPattern,
    pub hops: Vec<StarKey>,
    pub transactions: Vec<Id>,
    pub max_hops: usize,
}

impl View for StarSearch {
    type V = StarSearchView;

    open spec fn view(&self) -> StarSearchView {
        StarSearchView {
            from: self.from@,
            pattern: self.pattern@,
            hops: self.hops.deep_view(),
            transactions: self.transactions@,
            max_hops: self.max_hops,
        }
    }
}

impl DeepView for StarSearch {
    type V = StarSearchView;

    open spec fn deep_view(&self) -> StarSearchView {
        self@
    }
}

impl Clone for StarSearch {
    fn clone(&self) -> (r: Self)
        ensures
            r@ == self@,
    {
        let r = StarSearch {
            from: self.from.clone(),
            pattern: self.pattern.clone(),
            hops: self.hops.clone(),
            transactions: self.transactions.clone(),
            max_hops: self.max_hops,
        };
        assert(r.hops.deep_view() =~= self.hops.deep_view());
        assert(r.transactions@ =~= self.transactions@);
        r
    }
}

impl StarSearch {
    /// Records that the search passed `hop` under `transaction`.
    pub fn inc(&mut self, hop: StarKey, transaction: Id)
        ensures
            final(self)@ == (StarSearchView {
                hops: old(self)@.hops.push(hop@),
                transactions: old(self)@.transactions.push(transaction),
                ..old(self)@
            }),
    {
        self.hops.push(hop);
        self.transactions.push(transaction);
        assert(self.hops.deep_view() =~= old(self).hops.deep_view().push(hop@));
    }
}

/// The mathematical value of a [`SearchHit`].
pub ghost struct SearchHitView {
    pub star: StarKeyView,
    pub hops: usize,
}

/// A star that matched a search, and its distance.
#[derive(Debug, PartialEq, Eq, Hash)]
pub struct SearchHit {
    pub star: StarKey,
    pub hops: usize,
}

impl View for SearchHit {
    type V = SearchHitView;

    open spec fn view(&self) -> SearchHitView {
        SearchHitView {
            star: self.star@,
            hops: self.hops,
        }
    }
}

impl DeepView for SearchHit {
    type V = SearchHitView;

    open spec fn deep_view(&self) -> SearchHitView {
        self@
    }
}

impl Clone for SearchHit {
    fn clone(&self) -> (r: Self)
        ensures
            r@ == self@,
    {
        let r = SearchHit {
            star: self.star.clone(),
            hops: self.hops,
        };
        r
    }
}

/// The mathematical value of a [`StarSearchResult`].
pub ghost struct StarSearchResultView {
    pub missed: Option<StarKeyView>,
    pub hits: Seq<SearchHitView>,
    pub search: StarSearchView,
    pub transactions: Seq<Id>,
    pub hops: Seq<StarKeyView>,
}

/// The answer to a search, on its way back along the stars the search passed.
#[derive(Debug, PartialEq, Eq, Hash)]
pub struct StarSearchResult {
    pub missed: Option<StarKey>,
    pub hits: Vec<SearchHit>,
    pub search: StarSearch,
    pub transactions: Vec<Id>,
    pub hops: Vec<StarKey>,
}

impl View for StarSearchResult {
    type V = StarSearchResultView;

    open spec fn view(&self) -> StarSearchResultView {
        StarSearchResultView {
            missed: self.missed.deep_view(),
            hits: self.hits.deep_view(),
            search: self.search@,
            transactions: self.transactions@,
            hops: self.hops.deep_view(),
        }
    }
}

impl DeepView for StarSearchResult {
    type V = StarSearchResultView;

    open spec fn deep_view(&self) -> StarSearchResultView {
        self@
    }
}

impl Clone for StarSearchResult {
    fn clone(&self) -> (r: Self)
        ensures
            r@ == self@,
    {
        let r = StarSearchResult {
            missed: self.missed.clone(),
            hits: self.hits.clone(),
            search: self.search.clone(),
            transactions: self.transactions.clone(),
            hops: self.hops.clone(),
        };
        assert(r.hits.deep_view() =~= self.hits.deep_view());
        assert(r.transactions@ =~= self.transactions@);
        assert(r.hops.deep_view() =~= self.hops.deep_view());
        r
    }
}

impl StarSearchResult {
    /// Takes the last star and the last transaction off the way back.
    pub fn pop(&mut self)
        ensures
            final(self)@ == (StarSearchResultView {
                transactions: if old(self)@.transactions.len() > 0 {
                    old(self)@.transactions.drop_last()
                } else {
                    old(self)@.transactions
                },
                hops: if old(self)@.hops.len() > 0 {
                    old(self)@.hops.drop_last()
                } else {
                    old(self)@.hops
                },
                ..old(self)@
            }),
    {
        self.transactions.pop();
        self.hops.pop();
        assert(self.transactions@ =~= if old(self)@.transactions.len() > 0 {
            old(self)@.transactions.drop_last()
        } else {
            old(self)@.transactions
        });
        assert(self.hops.deep_view() =~= if old(self)@.hops.len() > 0 {
            old(self)@.hops.drop_last()
        } else {
            old(self)@.hops
        });
    }
}

/// The mathematical value of a [`Rejection`].
pub ghost struct RejectionView {
    pub message: Seq<char>,
}

/// Why a request was turned down.
#[derive(Debug, PartialEq, Eq, Hash)]
pub struct Rejection {
    pub message: String,
}

impl View for Rejection {
    type V = RejectionView;

    open spec fn view(&self) -> RejectionView {
        RejectionView {
            message: self.message@,
        }
    }
}

impl DeepView for Rejection {
    type V = RejectionView;

    open spec fn deep_view(&self) -> RejectionView {
        self@
    }
}

impl Clone for Rejection {
    fn clone(&self) -> (r: Self)
        ensures
            r@ == self@,
    {
        let r = Rejection {
            message: self.message.clone(),
        };
        r
    }
}

/// The mathematical value of a [`ApplicationLookup`].
pub ghost struct ApplicationLookupView {
    pub name: Seq<char>,
}

/// Asks for the application of the given name.
#[derive(Debug, PartialEq, Eq, Hash)]
pub struct ApplicationLookup {
    pub name: String,
}

impl View for ApplicationLookup {
    type V = ApplicationLookupView;

    open spec fn view(&self) -> ApplicationLookupView {
        ApplicationLookupView {
            name: self.name@,
        }
    }
}

impl DeepView for ApplicationLookup {
    type V = ApplicationLookupView;

    open spec fn deep_view(&self) -> ApplicationLookupView {
        self@
    }
}

impl Clone for ApplicationLookup {
    fn clone(&self) -> (r: Self)
        ensures
            r@ == self@,
    {
        let r = ApplicationLookup {
            name: self.name.clone(),
        };
        r
    }
}

/// The mathematical value of a [`ApplicationCreateRequest`].
pub ghost struct ApplicationCreateRequestView {
    pub name: Option<Seq<char>>,
    pub kind: AppKindView,
    pub data: Seq<u8>,
}

/// Asks for a new application.
#[derive(Debug, PartialEq, Eq, Hash)]
pub struct ApplicationCreateRequest {
    pub name: Option<String>,
    pub kind: AppKind,
    pub data: Vec<u8>,
}

impl View for ApplicationCreateRequest {
    type V = ApplicationCreateRequestView;

    open spec fn view(&self) -> ApplicationCreateRequestView {
        ApplicationCreateRequestView {
            name: self.name.deep_view(),
            kind: self.kind@,
            data: self.data@,
        }
    }
}

impl DeepView for ApplicationCreateRequest {
    type V = ApplicationCreateRequestView;

    open spec fn deep_view(&self) -> ApplicationCreateRequestView {
        self@
    }
}

impl Clone for ApplicationCreateRequest {
    fn clone(&self) -> (r: Self)
        ensures
            r@ == self@,
    {
        let r = ApplicationCreateRequest {
            name: self.name.clone(),
            kind: self.kind.clone(),
            data: self.data.clone(),
        };
        assert(r.data@ =~= self.data@);
        r
    }
}

/// The mathematical value of a [`ApplicationAssign`].
pub ghost struct ApplicationAssignView {
    pub app: AppInfoView,
    pub data: Seq<u8>,
    pub notify: Seq<StarKeyView>,
    pub supervisor: StarKeyView,
}

/// Hands an application to a supervisor.
#[derive(Debug, PartialEq, Eq, Hash)]
pub struct ApplicationAssign {
    pub app: AppInfo,
    pub data: Vec<u8>,
    pub notify: Vec<StarKey>,
    pub supervisor: StarKey,
}

impl View for ApplicationAssign {
    type V = ApplicationAssignView;

    open spec fn view(&self) -> ApplicationAssignView {
        ApplicationAssignView {
            app: self.app@,
            data: self.data@,
            notify: self.notify.deep_view(),
            supervisor: self.supervisor@,
        }
    }
}

impl DeepView for ApplicationAssign {
    type V = ApplicationAssignView;

    open spec fn deep_view(&self) -> ApplicationAssignView {
        self@
    }
}

impl Clone for ApplicationAssign {
    fn clone(&self) -> (r: Self)
        ensures
            r@ == self@,
    {
        let r = ApplicationAssign {
            app: self.app.clone(),
            data: self.data.clone(),
            notify: self.notify.clone(),
            supervisor: self.supervisor.clone(),
        };
        assert(r.data@ =~= self.data@);
        assert(r.notify.deep_view() =~= self.notify.deep_view());
        r
    }
}

/// The mathematical value of a [`ApplicationNotifyReady`].
pub ghost struct ApplicationNotifyReadyView {
    pub location: AppLocationView,
}

/// Says that an application is up.
#[derive(Debug, PartialEq, Eq, Hash)]
pub struct ApplicationNotifyReady {
    pub location: AppLocation,
}

impl View for ApplicationNotifyReady {
    type V = ApplicationNotifyReadyView;

    open spec fn view(&self) -> ApplicationNotifyReadyView {
        ApplicationNotifyReadyView {
            location: self.location@,
        }
    }
}

impl DeepView for ApplicationNotifyReady {
    type V = ApplicationNotifyReadyView;

    open spec fn deep_view(&self) -> ApplicationNotifyReadyView {
        self@
    }
}

impl Clone for ApplicationNotifyReady {
    fn clone(&self) -> (r: Self)
        ensures
            r@ == self@,
    {
        let r = ApplicationNotifyReady {
            location: self.location.clone(),
        };
        r
    }
}

/// Asks which supervisor looks after an application.
#[derive(Clone, Copy, Debug, PartialEq, Eq, Hash, Structural)]
pub struct ApplicationRequestSupervisor {
    pub app: AppKey,
}

/// The mathematical value of a [`ApplicationReportSupervisor`].
pub ghost struct ApplicationReportSupervisorView {
    pub app: AppKey,
    pub supervisor: StarKeyView,
}

/// Names the supervisor of an application.
#[derive(Debug, PartialEq, Eq, Hash)]
pub struct ApplicationReportSupervisor {
    pub app: AppKey,
    pub supervisor: StarKey,
}

impl View for ApplicationReportSupervisor {
    type V = ApplicationReportSupervisorView;

    open spec fn view(&self) -> ApplicationReportSupervisorView {
        ApplicationReportSupervisorView {
            app: self.app,
            supervisor: self.supervisor@,
        }
    }
}

impl DeepView for ApplicationReportSupervisor {
    type V = ApplicationReportSupervisorView;

    open spec fn deep_view(&self) -> ApplicationReportSupervisorView {
        self@
    }
}

impl Clone for ApplicationReportSupervisor {
    fn clone(&self) -> (r: Self)
        ensures
            r@ == self@,
    {
        let r = ApplicationReportSupervisor {
            app: self.app,
            supervisor: self.supervisor.clone(),
        };
        r
    }
}

/// The mathematical value of a [`ApplicationRequestLaunch`].
pub ghost struct ApplicationRequestLaunchView {
    pub app_id: Id,
    pub data: Seq<u8>,
}

/// Asks for an application to be started.
#[derive(Debug, PartialEq, Eq, Hash)]
pub struct ApplicationRequestLaunch {
    pub app_id: Id,
    pub data: Vec<u8>,
}

impl View for ApplicationRequestLaunch {
    type V = ApplicationRequestLaunchView;

    open spec fn view(&self) -> ApplicationRequestLaunchView {
        ApplicationRequestLaunchView {
            app_id: self.app_id,
            data: self.data@,
        }
    }
}

impl DeepView for ApplicationRequestLaunch {
    type V = ApplicationRequestLaunchView;

    open spec fn deep_view(&self) -> ApplicationRequestLaunchView {
        self@
    }
}

impl Clone for ApplicationRequestLaunch {
    fn clone(&self) -> (r: Self)
        ensures
            r@ == self@,
    {
        let r = ApplicationRequestLaunch {
            app_id: self.app_id,
            data: self.data.clone(),
        };
        assert(r.data@ =~= self.data@);
        r
    }
}

/// The mathematical value of a [`ResourcePayload`].
pub ghost struct ResourcePayloadView {
    pub kind: Seq<char>,
    pub data: Seq<u8>,
}

/// Bytes of a stated kind.
#[derive(Debug, PartialEq, Eq, Hash)]
pub struct ResourcePayload {
    pub kind: String,
    pub data: Vec<u8>,
}

impl View for ResourcePayload {
    type V = ResourcePayloadView;

    open spec fn view(&self) -> ResourcePayloadView {
        ResourcePayloadView {
            kind: self.kind@,
            data: self.data@,
        }
    }
}

impl DeepView for ResourcePayload {
    type V = ResourcePayloadView;

    open spec fn deep_view(&self) -> ResourcePayloadView {
        self@
    }
}

impl Clone for ResourcePayload {
    fn clone(&self) -> (r: Self)
        ensures
            r@ == self@,
    {
        let r = ResourcePayload {
            kind: self.kind.clone(),
            data: self.data.clone(),
        };
        assert(r.data@ =~= self.data@);
        r
    }
}

/// The mathematical value of a [`NamedPayload`].
pub ghost struct NamedPayloadView {
    pub name: Seq<char>,
    pub payload: ResourcePayloadView,
}

/// A payload under a name.
#[derive(Debug, PartialEq, Eq, Hash)]
pub struct NamedPayload {
    pub name: String,
    pub payload: ResourcePayload,
}

impl View for NamedPayload {
    type V = NamedPayloadView;

    open spec fn view(&self) -> NamedPayloadView {
        NamedPayloadView {
            name: self.name@,
            payload: self.payload@,
        }
    }
}

impl DeepView for NamedPayload {
    type V = NamedPayloadView;

    open spec fn deep_view(&self) -> NamedPayloadView {
        self@
    }
}

impl Clone for NamedPayload {
    fn clone(&self) -> (r: Self)
        ensures
            r@ == self@,
    {
        let r = NamedPayload {
            name: self.name.clone(),
            payload: self.payload.clone(),
        };
        r
    }
}

/// The mathematical value of a [`ResourcePayloads`].
pub ghost struct ResourcePayloadsView {
    pub map: Seq<NamedPayloadView>,
}

/// Payloads by name, in the order they were added.
#[derive(Debug, PartialEq, Eq, Hash)]
pub struct ResourcePayloads {
    pub map: Vec<NamedPayload>,
}

impl View for ResourcePayloads {
    type V = ResourcePayloadsView;

    open spec fn view(&self) -> ResourcePayloadsView {
        ResourcePayloadsView {
            map: self.map.deep_view(),
        }
    }
}

impl DeepView for ResourcePayloads {
    type V = ResourcePayloadsView;

    open spec fn deep_view(&self) -> ResourcePayloadsView {
        self@
    }
}

impl Clone for ResourcePayloads {
    fn clone(&self) -> (r: Self)
        ensures
            r@ == self@,
    {
        let r = ResourcePayloads {
            map: self.map.clone(),
        };
        assert(r.map.deep_view() =~= self.map.deep_view());
        r
    }
}

/// The mathematical value of a [`ResourceState`].
pub ghost struct ResourceStateView {
    pub payloads: ResourcePayloadsView,
}

/// The state of a resource.
#[derive(Debug, PartialEq, Eq, Hash)]
pub struct ResourceState {
    pub payloads: ResourcePayloads,
}

impl View for ResourceState {
    type V = ResourceStateView;

    open spec fn view(&self) -> ResourceStateView {
        ResourceStateView {
            payloads: self.payloads@,
        }
    }
}

impl DeepView for ResourceState {
    type V = ResourceStateView;

    open spec fn deep_view(&self) -> ResourceStateView {
        self@
    }
}

impl Clone for ResourceState {
    fn clone(&self) -> (r: Self)
        ensures
            r@ == self@,
    {
        let r = ResourceState {
            payloads: self.payloads.clone(),
        };
        r
    }
}

/// A resource joined a gathering.
#[derive(Clone, Copy, Debug, PartialEq, Eq, Hash, Structural)]
pub struct ResourceGathered {
    pub to: EntityKey,
}

/// A resource left a gathering.
#[derive(Clone, Copy, Debug, PartialEq, Eq, Hash, Structural)]
pub struct ResourceScattered {
    pub from: EntityKey,
}

/// The mathematical value of a [`ResourceBroadcast`].
pub ghost struct ResourceBroadcastView {
    pub topic: Seq<char>,
    pub payloads: ResourcePayloadsView,
}

/// Payloads published on a topic.
#[derive(Debug, PartialEq, Eq, Hash)]
pub struct ResourceBroadcast {
    pub topic: String,
    pub payloads: ResourcePayloads,
}

impl View for ResourceBroadcast {
    type V = ResourceBroadcastView;

    open spec fn view(&self) -> ResourceBroadcastView {
        ResourceBroadcastView {
            topic: self.topic@,
            payloads: self.payloads@,
        }
    }
}

impl DeepView for ResourceBroadcast {
    type V = ResourceBroadcastView;

    open spec fn deep_view(&self) -> ResourceBroadcastView {
        self@
    }
}

impl Clone for ResourceBroadcast {
    fn clone(&self) -> (r: Self)
        ensures
            r@ == self@,
    {
        let r = ResourceBroadcast {
            topic: self.topic.clone(),
            payloads: self.payloads.clone(),
        };
        r
    }
}

/// The mathematical value of a [`ResourceEventKind`].
pub ghost enum ResourceEventKindView {
    ResourceStateChange(ResourceStateView),
    ResourceGathered(ResourceGathered),
    ResourceScattered(ResourceScattered),
    Broadcast(ResourceBroadcastView),
}

/// What happened to a resource.
#[derive(Debug, PartialEq, Eq, Hash)]
pub enum ResourceEventKind {
    ResourceStateChange(ResourceState),
    ResourceGathered(ResourceGathered),
    ResourceScattered(ResourceScattered),
    Broadcast(ResourceBroadcast),
}

impl View for ResourceEventKind {
    type V = ResourceEventKindView;

    open spec fn view(&self) -> ResourceEventKindView {
        match self {
            ResourceEventKind::ResourceStateChange(a) => ResourceEventKindView::ResourceStateChange(a@),
            ResourceEventKind::ResourceGathered(a) => ResourceEventKindView::ResourceGathered(*a),
            ResourceEventKind::ResourceScattered(a) => ResourceEventKindView::ResourceScattered(*a),
            ResourceEventKind::Broadcast(a) => ResourceEventKindView::Broadcast(a@),
        }
    }
}

impl DeepView for ResourceEventKind {
    type V = ResourceEventKindView;

    open spec fn deep_view(&self) -> ResourceEventKindView {
        self@
    }
}

impl Clone for ResourceEventKind {
    fn clone(&self) -> (r: Self)
        ensures
            r@ == self@,
    {
        match self {
            ResourceEventKind::ResourceStateChange(a) => ResourceEventKind::ResourceStateChange(a.clone()),
            ResourceEventKind::ResourceGathered(a) => ResourceEventKind::ResourceGathered(*a),
            ResourceEventKind::ResourceScattered(a) => ResourceEventKind::ResourceScattered(*a),
            ResourceEventKind::Broadcast(a) => ResourceEventKind::Broadcast(a.clone()),
        }
    }
}

/// The mathematical value of a [`EntityEvent`].
pub ghost struct EntityEventView {
    pub entity: EntityKey,
    pub kind: ResourceEventKindView,
}

/// Something happened to an entity.
#[derive(Debug, PartialEq, Eq, Hash)]
pub struct EntityEvent {
    pub entity: EntityKey,
    pub kind: ResourceEventKind,
}

impl View for EntityEvent {
    type V = EntityEventView;

    open spec fn view(&self) -> EntityEventView {
        EntityEventView {
            entity: self.entity,
            kind: self.kind@,
        }
    }
}

impl DeepView for EntityEvent {
    type V = EntityEventView;

    open spec fn deep_view(&self) -> EntityEventView {
        self@
    }
}

impl Clone for EntityEvent {
    fn clone(&self) -> (r: Self)
        ensures
            r@ == self@,
    {
        let r = EntityEvent {
            entity: self.entity,
            kind: self.kind.clone(),
        };
        r
    }
}

/// The mathematical value of a [`ResourceReportBind`].
pub ghost struct ResourceReportBindView {
    pub star: StarKeyView,
    pub key: EntityKey,
    pub name: Option<Seq<char>>,
}

/// Says on which star a resource was bound, and under which name.
#[derive(Debug, PartialEq, Eq, Hash)]
pub struct ResourceReportBind {
    pub star: StarKey,
    pub key: EntityKey,
    pub name: Option<String>,
}

impl View for ResourceReportBind {
    type V = ResourceReportBindView;

    open spec fn view(&self) -> ResourceReportBindView {
        ResourceReportBindView {
            star: self.star@,
            key: self.key,
            name: self.name.deep_view(),
        }
    }
}

impl DeepView for ResourceReportBind {
    type V = ResourceReportBindView;

    open spec fn deep_view(&self) -> ResourceReportBindView {
        self@
    }
}

impl Clone for ResourceReportBind {
    fn clone(&self) -> (r: Self)
        ensures
            r@ == self@,
    {
        let r = ResourceReportBind {
            star: self.star.clone(),
            key: self.key,
            name: self.name.clone(),
        };
        r
    }
}

/// The mathematical value of a [`ResourceNameLookup`].
pub ghost struct ResourceNameLookupView {
    pub app_id: Id,
    pub name: Seq<char>,
}

/// A resource of an application, by name.
#[derive(Debug, PartialEq, Eq, Hash)]
pub struct ResourceNameLookup {
    pub app_id: Id,
    pub name: String,
}

impl View for ResourceNameLookup {
    type V = ResourceNameLookupView;

    open spec fn view(&self) -> ResourceNameLookupView {
        ResourceNameLookupView {
            app_id: self.app_id,
            name: self.name@,
        }
    }
}

impl DeepView for ResourceNameLookup {
    type V = ResourceNameLookupView;

    open spec fn deep_view(&self) -> ResourceNameLookupView {
        self@
    }
}

impl Clone for ResourceNameLookup {
    fn clone(&self) -> (r: Self)
        ensures
            r@ == self@,
    {
        let r = ResourceNameLookup {
            app_id: self.app_id,
            name: self.name.clone(),
        };
        r
    }
}

/// The mathematical value of a [`EntityLookup`].
pub ghost enum EntityLookupView {
    Key(EntityKey),
    Name(ResourceNameLookupView),
}

/// How an entity is looked up: by key or by name.
#[derive(Debug, PartialEq, Eq, Hash)]
pub enum EntityLookup {
    Key(EntityKey),
    Name(ResourceNameLookup),
}

impl View for EntityLookup {
    type V = EntityLookupView;

    open spec fn view(&self) -> EntityLookupView {
        match self {
            EntityLookup::Key(a) => EntityLookupView::Key(*a),
            EntityLookup::Name(a) => EntityLookupView::Name(a@),
        }
    }
}

impl DeepView for EntityLookup {
    type V = EntityLookupView;

    open spec fn deep_view(&self) -> EntityLookupView {
        self@
    }
}

impl Clone for EntityLookup {
    fn clone(&self) -> (r: Self)
        ensures
            r@ == self@,
    {
        match self {
            EntityLookup::Key(a) => EntityLookup::Key(*a),
            EntityLookup::Name(a) => EntityLookup::Name(a.clone()),
        }
    }
}

impl EntityLookup {
    /// The application that the entity belongs to.
    pub fn app_id(&self) -> (r: Id)
        ensures
            r == match self@ {
                EntityLookupView::Key(resource) => resource.app,
                EntityLookupView::Name(name) => name.app_id,
            },
    {
        match self {
            EntityLookup::Key(resource) => resource.app,
            EntityLookup::Name(name) => name.app_id,
        }
    }
}

/// The mathematical value of a [`EntityRequestLocation`].
pub ghost struct EntityRequestLocationView {
    pub lookup: EntityLookupView,
}

/// Asks where an entity lives.
#[derive(Debug, PartialEq, Eq, Hash)]
pub struct EntityRequestLocation {
    pub lookup: EntityLookup,
}

impl View for EntityRequestLocation {
    type V = EntityRequestLocationView;

    open spec fn view(&self) -> EntityRequestLocationView {
        EntityRequestLocationView {
            lookup: self.lookup@,
        }
    }
}

impl DeepView for EntityRequestLocation {
    type V = EntityRequestLocationView;

    open spec fn deep_view(&self) -> EntityRequestLocationView {
        self@
    }
}

impl Clone for EntityRequestLocation {
    fn clone(&self) -> (r: Self)
        ensures
            r@ == self@,
    {
        let r = EntityRequestLocation {
            lookup: self.lookup.clone(),
        };
        r
    }
}

/// The mathematical value of a [`ResourceReportLocation`].
pub ghost struct ResourceReportLocationView {
    pub resource: EntityKey,
    pub location: EntityLocationView,
}

/// Says where a resource lives.
#[derive(Debug, PartialEq, Eq, Hash)]
pub struct ResourceReportLocation {
    pub resource: EntityKey,
    pub location: EntityLocation,
}

impl View for ResourceReportLocation {
    type V = ResourceReportLocationView;

    open spec fn view(&self) -> ResourceReportLocationView {
        ResourceReportLocationView {
            resource: self.resource,
            location: self.location@,
        }
    }
}

impl DeepView for ResourceReportLocation {
    type V = ResourceReportLocationView;

    open spec fn deep_view(&self) -> ResourceReportLocationView {
        self@
    }
}

impl Clone for ResourceReportLocation {
    fn clone(&self) -> (r: Self)
        ensures
            r@ == self@,
    {
        let r = ResourceReportLocation {
            resource: self.resource,
            location: self.location.clone(),
        };
        r
    }
}

/// The mathematical value of a [`EntityFrom`].
pub ghost struct EntityFromView {
    pub key: EntityKey,
    pub source: Option<Seq<u8>>,
}

/// The entity a message comes from.
#[derive(Debug, PartialEq, Eq, Hash)]
pub struct EntityFrom {
    pub key: EntityKey,
    pub source: Option<Vec<u8>>,
}

impl View for EntityFrom {
    type V = EntityFromView;

    open spec fn view(&self) -> EntityFromView {
        EntityFromView {
            key: self.key,
            source: self.source.deep_view(),
        }
    }
}

impl DeepView for EntityFrom {
    type V = EntityFromView;

    open spec fn deep_view(&self) -> EntityFromView {
        self@
    }
}

impl Clone for EntityFrom {
    fn clone(&self) -> (r: Self)
        ensures
            r@ == self@,
    {
        let r = EntityFrom {
            key: self.key,
            source: self.source.clone(),
        };
        assert(r.source.deep_view() == self.source.deep_view()) by {
            if self.source is Some {
                assert(r.source->0@ =~= self.source->0@);
            }
        }
        r
    }
}

/// The mathematical value of a [`EntityFromKind`].
pub ghost enum EntityFromKindView {
    Entity(EntityFromView),
    User(UserView),
}

/// Who a message to an entity comes from.
#[derive(Debug, PartialEq, Eq, Hash)]
pub enum EntityFromKind {
    Entity(EntityFrom),
    User(User),
}

impl View for EntityFromKind {
    type V = EntityFromKindView;

    open spec fn view(&self) -> EntityFromKindView {
        match self {
            EntityFromKind::Entity(a) => EntityFromKindView::Entity(a@),
            EntityFromKind::User(a) => EntityFromKindView::User(a@),
        }
    }
}

impl DeepView for EntityFromKind {
    type V = EntityFromKindView;

    open spec fn deep_view(&self) -> EntityFromKindView {
        self@
    }
}

impl Clone for EntityFromKind {
    fn clone(&self) -> (r: Self)
        ensures
            r@ == self@,
    {
        match self {
            EntityFromKind::Entity(a) => EntityFromKind::Entity(a.clone()),
            EntityFromKind::User(a) => EntityFromKind::User(a.clone()),
        }
    }
}

/// The mathematical value of a [`EntityTo`].
pub ghost struct EntityToView {
    pub key: EntityKey,
    pub target: Option<Seq<u8>>,
}

/// The entity a message goes to.
#[derive(Debug, PartialEq, Eq, Hash)]
pub struct EntityTo {
    pub key: EntityKey,
    pub target: Option<Vec<u8>>,
}

impl View for EntityTo {
    type V = EntityToView;

    open spec fn view(&self) -> EntityToView {
        EntityToView {
            key: self.key,
            target: self.target.deep_view(),
        }
    }
}

impl DeepView for EntityTo {
    type V = EntityToView;

    open spec fn deep_view(&self) -> EntityToView {
        self@
    }
}

impl Clone for EntityTo {
    fn clone(&self) -> (r: Self)
        ensures
            r@ == self@,
    {
        let r = EntityTo {
            key: self.key,
            target: self.target.clone(),
        };
        assert(r.target.deep_view() == self.target.deep_view()) by {
            if self.target is Some {
                assert(r.target->0@ =~= self.target->0@);
            }
        }
        r
    }
}

/// The mathematical value of a [`EntityMessage`].
pub ghost struct EntityMessageView {
    pub id: Id,
    pub from: EntityFromKindView,
    pub to: EntityToView,
    pub payloads: ResourcePayloadsView,
    pub transaction: Option<Id>,
}

/// A message to an entity.
#[derive(Debug, PartialEq, Eq, Hash)]
pub struct EntityMessage {
    pub id: Id,
    pub from: EntityFromKind,
    pub to: EntityTo,
    pub payloads: ResourcePayloads,
    pub transaction: Option<Id>,
}

impl View for EntityMessage {
    type V = EntityMessageView;

    open spec fn view(&self) -> EntityMessageView {
        EntityMessageView {
            id: self.id,
            from: self.from@,
            to: self.to@,
            payloads: self.payloads@,
            transaction: self.transaction,
        }
    }
}

impl DeepView for EntityMessage {
    type V = EntityMessageView;

    open spec fn deep_view(&self) -> EntityMessageView {
        self@
    }
}

impl Clone for EntityMessage {
    fn clone(&self) -> (r: Self)
        ensures
            r@ == self@,
    {
        let r = EntityMessage {
            id: self.id,
            from: self.from.clone(),
            to: self.to.clone(),
            payloads: self.payloads.clone(),
            transaction: self.transaction,
        };
        r
    }
}

/// The mathematical value of a [`ResourceBind`].
pub ghost struct ResourceBindView {
    pub key: EntityKey,
    pub star: StarKeyView,
}

/// Binds a resource to a star.
#[derive(Debug, PartialEq, Eq, Hash)]
pub struct ResourceBind {
    pub key: EntityKey,
    pub star: StarKey,
}

impl View for ResourceBind {
    type V = ResourceBindView;

    open spec fn view(&self) -> ResourceBindView {
        ResourceBindView {
            key: self.key,
            star: self.star@,
        }
    }
}

impl DeepView for ResourceBind {
    type V = ResourceBindView;

    open spec fn deep_view(&self) -> ResourceBindView {
        self@
    }
}

impl Clone for ResourceBind {
    fn clone(&self) -> (r: Self)
        ensures
            r@ == self@,
    {
        let r = ResourceBind {
            key: self.key,
            star: self.star.clone(),
        };
        r
    }
}

/// The mathematical value of a [`StarMessagePayload`].
pub ghost enum StarMessagePayloadView {
    Reject(RejectionView),
    SupervisorPledgeToCentral,
    ApplicationCreateRequest(ApplicationCreateRequestView),
    ApplicationAssign(ApplicationAssignView),
    ApplicationNotifyReady(ApplicationNotifyReadyView),
    ApplicationRequestSupervisor(ApplicationRequestSupervisor),
    ApplicationReportSupervisor(ApplicationReportSupervisorView),
    ApplicationLookup(ApplicationLookupView),
    ApplicationRequestLaunch(ApplicationRequestLaunchView),
    ServerPledgeToSupervisor,
    EntityStateRequest(EntityKey),
    EntityEvent(EntityEventView),
    EntityMessage(EntityMessageView),
    EntityRequestLocation(EntityRequestLocationView),
    EntityReportLocation(EntityLocationView),
    RequestSequence,
    AssignSequence(i64),
}

/// What a message between stars carries.
#[derive(Debug, PartialEq, Eq, Hash)]
pub enum StarMessagePayload {
    Reject(Rejection),
    SupervisorPledgeToCentral,
    ApplicationCreateRequest(ApplicationCreateRequest),
    ApplicationAssign(ApplicationAssign),
    ApplicationNotifyReady(ApplicationNotifyReady),
    ApplicationRequestSupervisor(ApplicationRequestSupervisor),
    ApplicationReportSupervisor(ApplicationReportSupervisor),
    ApplicationLookup(ApplicationLookup),
    ApplicationRequestLaunch(ApplicationRequestLaunch),
    ServerPledgeToSupervisor,
    EntityStateRequest(EntityKey),
    EntityEvent(EntityEvent),
    EntityMessage(EntityMessage),
    EntityRequestLocation(EntityRequestLocation),
    EntityReportLocation(EntityLocation),
    /// The sender asks the central star for a sequence of identifiers.
    RequestSequence,
    /// The sequence that the central star hands to the receiver.
    AssignSequence(i64),
}

impl View for StarMessagePayload {
    type V = StarMessagePayloadView;

    open spec fn view(&self) -> StarMessagePayloadView {
        match self {
            StarMessagePayload::Reject(a) => StarMessagePayloadView::Reject(a@),
            StarMessagePayload::SupervisorPledgeToCentral => StarMessagePayloadView::SupervisorPledgeToCentral,
            StarMessagePayload::ApplicationCreateRequest(a) => StarMessagePayloadView::ApplicationCreateRequest(a@),
            StarMessagePayload::ApplicationAssign(a) => StarMessagePayloadView::ApplicationAssign(a@),
            StarMessagePayload::ApplicationNotifyReady(a) => StarMessagePayloadView::ApplicationNotifyReady(a@),
            StarMessagePayload::ApplicationRequestSupervisor(a) => StarMessagePayloadView::ApplicationRequestSupervisor(*a),
            StarMessagePayload::ApplicationReportSupervisor(a) => StarMessagePayloadView::ApplicationReportSupervisor(a@),
            StarMessagePayload::ApplicationLookup(a) => StarMessagePayloadView::ApplicationLookup(a@),
            StarMessagePayload::ApplicationRequestLaunch(a) => StarMessagePayloadView::ApplicationRequestLaunch(a@),
            StarMessagePayload::ServerPledgeToSupervisor => StarMessagePayloadView::ServerPledgeToSupervisor,
            StarMessagePayload::EntityStateRequest(a) => StarMessagePayloadView::EntityStateRequest(*a),
            StarMessagePayload::EntityEvent(a) => StarMessagePayloadView::EntityEvent(a@),
            StarMessagePayload::EntityMessage(a) => StarMessagePayloadView::EntityMessage(a@),
            StarMessagePayload::EntityRequestLocation(a) => StarMessagePayloadView::EntityRequestLocation(a@),
            StarMessagePayload::EntityReportLocation(a) => StarMessagePayloadView::EntityReportLocation(a@),
            StarMessagePayload::RequestSequence => StarMessagePayloadView::RequestSequence,
            StarMessagePayload::AssignSequence(a) => StarMessagePayloadView::AssignSequence(*a),
        }
    }
}

impl DeepView for StarMessagePayload {
    type V = StarMessagePayloadView;

    open spec fn deep_view(&self) -> StarMessagePayloadView {
        self@
    }
}

impl Clone for StarMessagePayload {
    fn clone(&self) -> (r: Self)
        ensures
            r@ == self@,
    {
        match self {
            StarMessagePayload::Reject(a) => StarMessagePayload::Reject(a.clone()),
            StarMessagePayload::SupervisorPledgeToCentral => StarMessagePayload::SupervisorPledgeToCentral,
            StarMessagePayload::ApplicationCreateRequest(a) => StarMessagePayload::ApplicationCreateRequest(a.clone()),
            StarMessagePayload::ApplicationAssign(a) => StarMessagePayload::ApplicationAssign(a.clone()),
            StarMessagePayload::ApplicationNotifyReady(a) => StarMessagePayload::ApplicationNotifyReady(a.clone()),
            StarMessagePayload::ApplicationRequestSupervisor(a) => StarMessagePayload::ApplicationRequestSupervisor(*a),
            StarMessagePayload::ApplicationReportSupervisor(a) => StarMessagePayload::ApplicationReportSupervisor(a.clone()),
            StarMessagePayload::ApplicationLookup(a) => StarMessagePayload::ApplicationLookup(a.clone()),
            StarMessagePayload::ApplicationRequestLaunch(a) => StarMessagePayload::ApplicationRequestLaunch(a.clone()),
            StarMessagePayload::ServerPledgeToSupervisor => StarMessagePayload::ServerPledgeToSupervisor,
            StarMessagePayload::EntityStateRequest(a) => StarMessagePayload::EntityStateRequest(*a),
            StarMessagePayload::EntityEvent(a) => StarMessagePayload::EntityEvent(a.clone()),
            StarMessagePayload::EntityMessage(a) => StarMessagePayload::EntityMessage(a.clone()),
            StarMessagePayload::EntityRequestLocation(a) => StarMessagePayload::EntityRequestLocation(a.clone()),
            StarMessagePayload::EntityReportLocation(a) => StarMessagePayload::EntityReportLocation(a.clone()),
            StarMessagePayload::RequestSequence => StarMessagePayload::RequestSequence,
            StarMessagePayload::AssignSequence(a) => StarMessagePayload::AssignSequence(*a),
        }
    }
}

impl StarMessagePayload {
    /// The name of the payload; for a rejection, with its message in brackets.
    pub open spec fn text(payload: StarMessagePayloadView) -> Seq<char> {
        match payload {
            StarMessagePayloadView::Reject(inner) => "Reject("@ + inner.message + ")"@,
            StarMessagePayloadView::SupervisorPledgeToCentral => "SupervisorPledgeToCentral"@,
            StarMessagePayloadView::ApplicationCreateRequest(_) => "ApplicationCreateRequest"@,
            StarMessagePayloadView::ApplicationAssign(_) => "ApplicationAssign"@,
            StarMessagePayloadView::ApplicationNotifyReady(_) => "ApplicationNotifyReady"@,
            StarMessagePayloadView::ApplicationRequestSupervisor(_) => "ApplicationRequestSupervisor"@,
            StarMessagePayloadView::ApplicationReportSupervisor(_) => "ApplicationReportSupervisor"@,
            StarMessagePayloadView::ApplicationLookup(_) => "ApplicationLookupId"@,
            StarMessagePayloadView::ApplicationRequestLaunch(_) => "ApplicationRequestLaunch"@,
            StarMessagePayloadView::ServerPledgeToSupervisor => "ServerPledgeToSupervisor"@,
            StarMessagePayloadView::EntityStateRequest(_) => "ResourceStateRequest"@,
            StarMessagePayloadView::EntityEvent(_) => "ResourceEvent"@,
            StarMessagePayloadView::EntityMessage(_) => "ResourceMessage"@,
            StarMessagePayloadView::EntityRequestLocation(_) => "ResourceRequestLocation"@,
            StarMessagePayloadView::EntityReportLocation(_) => "ResourceReportLocation"@,
            StarMessagePayloadView::RequestSequence => "RequestSequence"@,
            StarMessagePayloadView::AssignSequence(_) => "AssignSequence"@,
        }
    }

    /// The name of the payload; for a rejection, with its message in brackets.
    pub fn to_string(&self) -> (r: String)
        ensures
            r@ == Self::text(self@),
    {
        match self {
            StarMessagePayload::Reject(inner) => {
                let mut s = String::from_str("Reject(");
                s.append(inner.message.as_str());
                s.append(")");
                s
            },
            StarMessagePayload::SupervisorPledgeToCentral => String::from_str("SupervisorPledgeToCentral"),
            StarMessagePayload::ApplicationCreateRequest(_) => String::from_str("ApplicationCreateRequest"),
            StarMessagePayload::ApplicationAssign(_) => String::from_str("ApplicationAssign"),
            StarMessagePayload::ApplicationNotifyReady(_) => String::from_str("ApplicationNotifyReady"),
            StarMessagePayload::ApplicationRequestSupervisor(_) => String::from_str("ApplicationRequestSupervisor"),
            StarMessagePayload::ApplicationReportSupervisor(_) => String::from_str("ApplicationReportSupervisor"),
            StarMessagePayload::ApplicationLookup(_) => String::from_str("ApplicationLookupId"),
            StarMessagePayload::ApplicationRequestLaunch(_) => String::from_str("ApplicationRequestLaunch"),
            StarMessagePayload::ServerPledgeToSupervisor => String::from_str("ServerPledgeToSupervisor"),
            StarMessagePayload::EntityStateRequest(_) => String::from_str("ResourceStateRequest"),
            StarMessagePayload::EntityEvent(_) => String::from_str("ResourceEvent"),
            StarMessagePayload::EntityMessage(_) => String::from_str("ResourceMessage"),
            StarMessagePayload::EntityRequestLocation(_) => String::from_str("ResourceRequestLocation"),
            StarMessagePayload::EntityReportLocation(_) => String::from_str("ResourceReportLocation"),
            StarMessagePayload::RequestSequence => String::from_str("RequestSequence"),
            StarMessagePayload::AssignSequence(_) => String::from_str("AssignSequence"),
        }
    }
}

/// The mathematical value of a [`StarMessage`].
pub ghost struct StarMessageView {
    pub from: StarKeyView,
    pub to: StarKeyView,
    pub id: Id,
    pub transaction: Option<Id>,
    pub payload: StarMessagePayloadView,
    pub retry: usize,
    pub max_retries: usize,
}

/// A message from one star to another, forwarded hop by hop.
#[derive(Debug, PartialEq, Eq, Hash)]
pub struct StarMessage {
    pub from: StarKey,
    pub to: StarKey,
    pub id: Id,
    pub transaction: Option<Id>,
    pub payload: StarMessagePayload,
    pub retry: usize,
    pub max_retries: usize,
}

impl View for StarMessage {
    type V = StarMessageView;

    open spec fn view(&self) -> StarMessageView {
        StarMessageView {
            from: self.from@,
            to: self.to@,
            id: self.id,
            transaction: self.transaction,
            payload: self.payload@,
            retry: self.retry,
            max_retries: self.max_retries,
        }
    }
}

impl DeepView for StarMessage {
    type V = StarMessageView;

    open spec fn deep_view(&self) -> StarMessageView {
        self@
    }
}

impl Clone for StarMessage {
    fn clone(&self) -> (r: Self)
        ensures
            r@ == self@,
    {
        let r = StarMessage {
            from: self.from.clone(),
            to: self.to.clone(),
            id: self.id,
            transaction: self.transaction,
            payload: self.payload.clone(),
            retry: self.retry,
            max_retries: self.max_retries,
        };
        r
    }
}

impl StarMessage {
    /// A first attempt at a message, with 16 retries allowed.
    pub fn new(id: Id, from: StarKey, to: StarKey, payload: StarMessagePayload) -> (r: Self)
        ensures
            r@ == (StarMessageView {
                from: from@,
                to: to@,
                id,
                transaction: None,
                payload: payload@,
                retry: 0,
                max_retries: 16,
            }),
    {
        StarMessage { id, from, to, transaction: None, payload, retry: 0, max_retries: 16 }
    }

    /// A first attempt at a message to the central star.
    pub fn to_central(id: Id, from: StarKey, payload: StarMessagePayload) -> (r: Self)
        ensures
            r@ == (StarMessageView {
                from: from@,
                to: StarKey::central_view(),
                id,
                transaction: None,
                payload: payload@,
                retry: 0,
                max_retries: 16,
            }),
    {
        StarMessage {
            id,
            from,
            to: StarKey::central(),
            transaction: None,
            payload,
            retry: 0,
            max_retries: 16,
        }
    }

    /// Turns the message round: sender and receiver change places, the
    /// payload is replaced and the retries start again. The message keeps its
    /// own id.
    pub fn reply(&mut self, id: Id, payload: StarMessagePayload)
        ensures
            final(self)@ == (StarMessageView {
                from: old(self)@.to,
                to: old(self)@.from,
                payload: payload@,
                retry: 0,
                ..old(self)@
            }),
    {
        let tmp = self.from.clone();
        self.from = self.to.clone();
        self.to = tmp;
        self.payload = payload;
        self.retry = 0;
    }

    /// Counts one more attempt.
    pub fn inc_retry(&mut self)
        requires
            old(self).retry < usize::MAX,
        ensures
            final(self)@ == (StarMessageView { retry: (old(self).retry + 1) as usize, ..old(self)@ }),
    {
        self.retry = self.retry + 1;
    }
}

/// The mathematical value of a [`Frame`].
pub ghost enum FrameView {
    Close,
    Proto(ProtoFrameView),
    Diagnose(FrameDiagnose),
    StarSearch(StarSearchView),
    StarSearchResult(StarSearchResultView),
    StarMessage(StarMessageView),
    StarAck(StarAckView),
    StarWind(StarWindView),
    StarUnwind(StarUnwindView),
    Watch(Watch),
    EntityEvent(EntityEventView),
}

/// One unit of the wire protocol.
#[derive(Debug, PartialEq, Eq, Hash)]
pub enum Frame {
    Close,
    Proto(ProtoFrame),
    Diagnose(FrameDiagnose),
    StarSearch(StarSearch),
    StarSearchResult(StarSearchResult),
    StarMessage(StarMessage),
    StarAck(StarAck),
    StarWind(StarWind),
    StarUnwind(StarUnwind),
    Watch(Watch),
    EntityEvent(EntityEvent),
}

impl View for Frame {
    type V = FrameView;

    open spec fn view(&self) -> FrameView {
        match self {
            Frame::Close => FrameView::Close,
            Frame::Proto(a) => FrameView::Proto(a@),
            Frame::Diagnose(a) => FrameView::Diagnose(*a),
            Frame::StarSearch(a) => FrameView::StarSearch(a@),
            Frame::StarSearchResult(a) => FrameView::StarSearchResult(a@),
            Frame::StarMessage(a) => FrameView::StarMessage(a@),
            Frame::StarAck(a) => FrameView::StarAck(a@),
            Frame::StarWind(a) => FrameView::StarWind(a@),
            Frame::StarUnwind(a) => FrameView::StarUnwind(a@),
            Frame::Watch(a) => FrameView::Watch(*a),
            Frame::EntityEvent(a) => FrameView::EntityEvent(a@),
        }
    }
}

impl DeepView for Frame {
    type V = FrameView;

    open spec fn deep_view(&self) -> FrameView {
        self@
    }
}

impl Clone for Frame {
    fn clone(&self) -> (r: Self)
        ensures
            r@ == self@,
    {
        match self {
            Frame::Close => Frame::Close,
            Frame::Proto(a) => Frame::Proto(a.clone()),
            Frame::Diagnose(a) => Frame::Diagnose(*a),
            Frame::StarSearch(a) => Frame::StarSearch(a.clone()),
            Frame::StarSearchResult(a) => Frame::StarSearchResult(a.clone()),
            Frame::StarMessage(a) => Frame::StarMessage(a.clone()),
            Frame::StarAck(a) => Frame::StarAck(a.clone()),
            Frame::StarWind(a) => Frame::StarWind(a.clone()),
            Frame::StarUnwind(a) => Frame::StarUnwind(a.clone()),
            Frame::Watch(a) => Frame::Watch(*a),
            Frame::EntityEvent(a) => Frame::EntityEvent(a.clone()),
        }
    }
}

impl FrameDiagnose {
    /// `Ping` or `Pong`.
    pub fn to_string(&self) -> (r: String)
        ensures
            r@ == match *self {
                FrameDiagnose::Ping => "Ping"@,
                FrameDiagnose::Pong => "Pong"@,
            },
    {
        match self {
            FrameDiagnose::Ping => String::from_str("Ping"),
            FrameDiagnose::Pong => String::from_str("Pong"),
        }
    }
}

impl ProtoFrame {
    /// The name of the frame, with what it carries in brackets.
    pub open spec fn text(frame: ProtoFrameView) -> Seq<char> {
        match frame {
            ProtoFrameView::StarLaneProtocolVersion(version) => "StarLaneProtocolVersion("@
                + int_text(version as int) + ")"@,
            ProtoFrameView::ReportStarKey(id) => "ReportStarId("@ + StarKey::text(id) + ")"@,
            ProtoFrameView::RequestSubgraphExpansion => "RequestSubgraphExpansion"@,
            ProtoFrameView::GrantSubgraphExpansion(path) => "GrantSubgraphExpansion("@ + path_text(
                path,
            ) + ")"@,
            ProtoFrameView::CentralFound(_) => "CentralFound"@,
            ProtoFrameView::CentralSearch => "CentralSearch"@,
        }
    }

    /// The name of the frame, with what it carries in brackets.
    pub fn to_string(&self) -> (r: String)
        ensures
            r@ == Self::text(self@),
    {
        match self {
            ProtoFrame::StarLaneProtocolVersion(version) => {
                let mut s = String::from_str("StarLaneProtocolVersion(");
                append_int(&mut s, *version as i64);
                s.append(")");
                s
            },
            ProtoFrame::ReportStarKey(id) => {
                let mut s = String::from_str("ReportStarId(");
                let key = id.to_string();
                s.append(key.as_str());
                s.append(")");
                s
            },
            ProtoFrame::RequestSubgraphExpansion => String::from_str("RequestSubgraphExpansion"),
            ProtoFrame::GrantSubgraphExpansion(path) => {
                let mut s = String::from_str("GrantSubgraphExpansion(");
                append_path(&mut s, path);
                s.append(")");
                s
            },
            ProtoFrame::CentralFound(_) => String::from_str("CentralFound"),
            ProtoFrame::CentralSearch => String::from_str("CentralSearch"),
        }
    }
}

impl Frame {
    /// The name of the frame; for the frames that the mesh itself reads, with
    /// what they carry in brackets.
    pub open spec fn text(frame: FrameView) -> Seq<char> {
        match frame {
            FrameView::Proto(proto) => "Proto("@ + ProtoFrame::text(proto) + ")"@,
            FrameView::Close => "Close"@,
            FrameView::Diagnose(diagnose) => "Diagnose("@ + (match diagnose {
                FrameDiagnose::Ping => "Ping"@,
                FrameDiagnose::Pong => "Pong"@,
            }) + ")"@,
            FrameView::StarMessage(inner) => "StarMessage("@ + StarMessagePayload::text(
                inner.payload,
            ) + ")"@,
            FrameView::StarSearch(_) => "StarSearch"@,
            FrameView::StarSearchResult(_) => "StarSearchResult"@,
            FrameView::StarWind(_) => "StarWind"@,
            FrameView::StarUnwind(_) => "StarUnwind"@,
            FrameView::StarAck(_) => "StarAck"@,
            FrameView::Watch(_) => "Watch"@,
            FrameView::EntityEvent(_) => "ResourceEvent"@,
        }
    }

    /// The name of the frame; for the frames that the mesh itself reads, with
    /// what they carry in brackets.
    pub fn to_string(&self) -> (r: String)
        ensures
            r@ == Self::text(self@),
    {
        match self {
            Frame::Proto(proto) => {
                let mut s = String::from_str("Proto(");
                let inner = proto.to_string();
                s.append(inner.as_str());
                s.append(")");
                s
            },
            Frame::Close => String::from_str("Close"),
            Frame::Diagnose(diagnose) => {
                let mut s = String::from_str("Diagnose(");
                let inner = diagnose.to_string();
                s.append(inner.as_str());
                s.append(")");
                s
            },
            Frame::StarMessage(inner) => {
                let mut s = String::from_str("StarMessage(");
                let payload = inner.payload.to_string();
                s.append(payload.as_str());
                s.append(")");
                s
            },
            Frame::StarSearch(_) => String::from_str("StarSearch"),
            Frame::StarSearchResult(_) => String::from_str("StarSearchResult"),
            Frame::StarWind(_) => String::from_str("StarWind"),
            Frame::StarUnwind(_) => String::from_str("StarUnwind"),
            Frame::StarAck(_) => String::from_str("StarAck"),
            Frame::Watch(_) => String::from_str("Watch"),
            Frame::EntityEvent(_) => String::from_str("ResourceEvent"),
        }
    }
}

} // verus!
