//! The root of the component, which answers its questions, and the parts it starts with.

use crate::signal::{
    ComponentReadiness, ComponentSnapshot, DeliveryTrace, DeliveryTraceStatus, EngineSnapshot,
    IntrospectionReply, IntrospectionRequest, IntrospectionTarget, PrototypeWitness,
    PrototypeWitnessQuery, ReplyView, RequestView,
};
pub use crate::targets::TargetSocketDirectory;
use std::path::PathBuf;
use vstd::prelude::*;

verus! {

/// The answer to a question. Nothing has been observed yet: every reading is unknown.
pub open spec fn reply_to(request: RequestView) -> ReplyView {
    match request {
        RequestView::EngineSnapshot { engine } => ReplyView::EngineSnapshot {
            engine,
            observed_components: seq![
                IntrospectionTarget::EngineManager,
                IntrospectionTarget::Router,
                IntrospectionTarget::Terminal,
            ],
        },
        RequestView::ComponentSnapshot { engine, target } => ReplyView::ComponentSnapshot {
            engine,
            target,
            readiness: ComponentReadiness::Unknown,
        },
        RequestView::DeliveryTrace { engine, correlation } => ReplyView::DeliveryTrace {
            engine,
            correlation,
            status: DeliveryTraceStatus::Unknown,
        },
        RequestView::PrototypeWitness { engine } => ReplyView::PrototypeWitness {
            engine,
            manager_seen: ComponentReadiness::Unknown,
            router_seen: ComponentReadiness::Unknown,
            terminal_seen: ComponentReadiness::Unknown,
            delivery_status: DeliveryTraceStatus::Unknown,
        },
    }
}

/// A count after one more question. It stays at the largest number once it is there.
pub open spec fn counted(handled: u64) -> u64 {
    if handled < u64::MAX {
        (handled + 1) as u64
    } else {
        handled
    }
}

/// A count after a number of further questions.
pub open spec fn counted_times(handled: u64, times: nat) -> u64
    decreases times,
{
    if times == 0 {
        handled
    } else {
        counted(counted_times(handled, (times - 1) as nat))
    }
}

/// Answers the questions and counts them.
#[derive(Debug, PartialEq, Eq)]
pub struct IntrospectionRoot {
    handled_queries: u64,
}

/// How many questions have been answered.
impl View for IntrospectionRoot {
    type V = u64;

    closed spec fn view(&self) -> u64 {
        self.handled_queries
    }
}

/// What the root starts from.
#[derive(Debug, Clone, PartialEq, Eq)]
pub struct IntrospectionRootInput {
    pub targets: TargetSocketDirectory,
}

/// The root and its parts as they start.
#[derive(Debug)]
pub struct StartedRoot {
    pub target_directory: TargetDirectory,
    pub query_planner: QueryPlanner,
    pub manager_client: ManagerClient,
    pub router_client: RouterClient,
    pub terminal_client: TerminalClient,
    pub projection: NotaProjection,
    pub root: IntrospectionRoot,
}

/// Asks the root for the witness of a prototype.
#[derive(Debug, Clone, PartialEq, Eq)]
pub struct ExplainPrototypeWitness {
    pub query: PrototypeWitnessQuery,
}

/// Asks the root any question.
#[derive(Debug, Clone, PartialEq, Eq)]
pub struct HandleIntrospectionRequest {
    pub request: IntrospectionRequest,
}

impl IntrospectionRoot {
    /// The root and its parts. Each client knows the socket that the directory has for it; the
    /// counts start at nothing.
    pub fn start_root(input: IntrospectionRootInput) -> (res: StartedRoot)
        ensures
            res.target_directory@ == input.targets,
            res.query_planner@ == 0,
            res.manager_client@ == input.targets.manager_socket,
            res.router_client@ == input.targets.router_socket,
            res.terminal_client@ == input.targets.terminal_socket,
            res.projection@ == 0,
            res.root@ == 0,
    {
        StartedRoot {
            target_directory: TargetDirectory::new(input.targets.clone()),
            query_planner: QueryPlanner::new(),
            manager_client: ManagerClient::new(input.targets.manager_socket.clone()),
            router_client: RouterClient::new(input.targets.router_socket),
            terminal_client: TerminalClient::new(input.targets.terminal_socket),
            projection: NotaProjection::new(),
            root: IntrospectionRoot { handled_queries: 0 },
        }
    }

    /// The witness of a prototype.
    pub fn prototype_witness(&mut self, query: PrototypeWitnessQuery) -> (res: IntrospectionReply)
        ensures
            res@ == reply_to(RequestView::PrototypeWitness { engine: query.engine@ }),
            final(self)@ == counted(old(self)@),
    {
        self.handled_queries = self.handled_queries.saturating_add(1);
        IntrospectionReply::PrototypeWitness(
            PrototypeWitness {
                engine: query.engine,
                manager_seen: ComponentReadiness::Unknown,
                router_seen: ComponentReadiness::Unknown,
                terminal_seen: ComponentReadiness::Unknown,
                delivery_status: DeliveryTraceStatus::Unknown,
            },
        )
    }

    /// The answer to a question.
    pub fn handle_request(&mut self, request: IntrospectionRequest) -> (res: IntrospectionReply)
        ensures
            res@ == reply_to(request@),
            final(self)@ == counted(old(self)@),
    {
        match request {
            IntrospectionRequest::EngineSnapshot(query) => {
                self.handled_queries = self.handled_queries.saturating_add(1);
                let observed_components = vec![
                    IntrospectionTarget::EngineManager,
                    IntrospectionTarget::Router,
                    IntrospectionTarget::Terminal,
                ];
                assert(observed_components@ == seq![
                    IntrospectionTarget::EngineManager,
                    IntrospectionTarget::Router,
                    IntrospectionTarget::Terminal,
                ]);
                IntrospectionReply::EngineSnapshot(
                    EngineSnapshot { engine: query.engine, observed_components },
                )
            },
            IntrospectionRequest::ComponentSnapshot(query) => {
                self.handled_queries = self.handled_queries.saturating_add(1);
                IntrospectionReply::ComponentSnapshot(
                    ComponentSnapshot {
                        engine: query.engine,
                        target: query.target,
                        readiness: ComponentReadiness::Unknown,
                    },
                )
            },
            IntrospectionRequest::DeliveryTrace(query) => {
                self.handled_queries = self.handled_queries.saturating_add(1);
                IntrospectionReply::DeliveryTrace(
                    DeliveryTrace {
                        engine: query.engine,
                        correlation: query.correlation,
                        status: DeliveryTraceStatus::Unknown,
                    },
                )
            },
            IntrospectionRequest::PrototypeWitness(query) => self.prototype_witness(query),
        }
    }
}

/// Keeps the directory of sockets.
#[derive(Debug, PartialEq, Eq)]
pub struct TargetDirectory {
    sockets: TargetSocketDirectory,
}

impl View for TargetDirectory {
    type V = TargetSocketDirectory;

    closed spec fn view(&self) -> TargetSocketDirectory {
        self.sockets
    }
}

impl TargetDirectory {
    pub fn new(sockets: TargetSocketDirectory) -> (res: Self)
        ensures
            res@ == sockets,
    {
        Self { sockets }
    }

    pub fn sockets(&self) -> (res: &TargetSocketDirectory)
        ensures
            *res == self@,
    {
        &self.sockets
    }
}

/// Counts the queries that have been planned.
#[derive(Debug, PartialEq, Eq)]
pub struct QueryPlanner {
    planned_queries: u64,
}

impl View for QueryPlanner {
    type V = u64;

    closed spec fn view(&self) -> u64 {
        self.planned_queries
    }
}

impl QueryPlanner {
    pub fn new() -> (res: Self)
        ensures
            res@ == 0,
    {
        Self { planned_queries: 0 }
    }

    pub fn planned_queries(&self) -> (res: u64)
        ensures
            res == self@,
    {
        self.planned_queries
    }
}

impl Default for QueryPlanner {
    fn default() -> (res: Self)
        ensures
            res@ == 0,
    {
        Self::new()
    }
}

/// Knows where the manager's socket is, if anywhere.
#[derive(Debug, PartialEq, Eq)]
pub struct ManagerClient {
    socket: Option<PathBuf>,
}

impl View for ManagerClient {
    type V = Option<PathBuf>;

    closed spec fn view(&self) -> Option<PathBuf> {
        self.socket
    }
}

impl ManagerClient {
    pub fn new(socket: Option<PathBuf>) -> (res: Self)
        ensures
            res@ == socket,
    {
        Self { socket }
    }

    pub fn socket(&self) -> (res: Option<&PathBuf>)
        ensures
            res is Some <==> self@ is Some,
            res matches Some(socket) ==> self@ == Some(*socket),
    {
        self.socket.as_ref()
    }
}

/// Knows where the router's socket is, if anywhere.
#[derive(Debug, PartialEq, Eq)]
pub struct RouterClient {
    socket: Option<PathBuf>,
}

impl View for RouterClient {
    type V = Option<PathBuf>;

    closed spec fn view(&self) -> Option<PathBuf> {
        self.socket
    }
}

impl RouterClient {
    pub fn new(socket: Option<PathBuf>) -> (res: Self)
        ensures
            res@ == socket,
    {
        Self { socket }
    }

    pub fn socket(&self) -> (res: Option<&PathBuf>)
        ensures
            res is Some <==> self@ is Some,
            res matches Some(socket) ==> self@ == Some(*socket),
    {
        self.socket.as_ref()
    }
}

/// Knows where the terminal's socket is, if anywhere.
#[derive(Debug, PartialEq, Eq)]
pub struct TerminalClient {
    socket: Option<PathBuf>,
}

impl View for TerminalClient {
    type V = Option<PathBuf>;

    closed spec fn view(&self) -> Option<PathBuf> {
        self.socket
    }
}

impl TerminalClient {
    pub fn new(socket: Option<PathBuf>) -> (res: Self)
        ensures
            res@ == socket,
    {
        Self { socket }
    }

    pub fn socket(&self) -> (res: Option<&PathBuf>)
        ensures
            res is Some <==> self@ is Some,
            res matches Some(socket) ==> self@ == Some(*socket),
    {
        self.socket.as_ref()
    }
}

/// Counts the outputs that have been rendered.
#[derive(Debug, PartialEq, Eq)]
pub struct NotaProjection {
    rendered_outputs: u64,
}

impl View for NotaProjection {
    type V = u64;

    closed spec fn view(&self) -> u64 {
        self.rendered_outputs
    }
}

impl NotaProjection {
    pub fn new() -> (res: Self)
        ensures
            res@ == 0,
    {
        Self { rendered_outputs: 0 }
    }

    pub fn rendered_outputs(&self) -> (res: u64)
        ensures
            res == self@,
    {
        self.rendered_outputs
    }
}

impl Default for NotaProjection {
    fn default() -> (res: Self)
        ensures
            res@ == 0,
    {
        Self::new()
    }
}

/// Whether an answer is of the kind that a question asks for.
pub open spec fn same_family(request: RequestView, reply: ReplyView) -> bool {
    match request {
        RequestView::EngineSnapshot { .. } => reply is EngineSnapshot,
        RequestView::ComponentSnapshot { .. } => reply is ComponentSnapshot,
        RequestView::DeliveryTrace { .. } => reply is DeliveryTrace,
        RequestView::PrototypeWitness { .. } => reply is PrototypeWitness,
    }
}

/// Every question gets an answer of its own kind, about the engine, the component and the delivery
/// that it asks about.
pub proof fn law_reply_answers_the_request(request: RequestView)
    ensures
        same_family(request, reply_to(request)),
        reply_to(request).engine() == request.engine(),
        request matches RequestView::ComponentSnapshot { target, .. } ==> reply_to(request)
            matches ReplyView::ComponentSnapshot { target: answered, .. } && answered == target,
        request matches RequestView::DeliveryTrace { correlation, .. } ==> reply_to(request)
            matches ReplyView::DeliveryTrace { correlation: answered, .. } && answered
            == correlation,
{
}

/// The manager, the router and the terminal of every engine are observed.
pub proof fn law_known_components_are_observed(engine: Seq<char>)
    ensures
        reply_to(RequestView::EngineSnapshot { engine }) matches ReplyView::EngineSnapshot {
            observed_components,
            ..
        } && observed_components.contains(IntrospectionTarget::EngineManager)
            && observed_components.contains(IntrospectionTarget::Router)
            && observed_components.contains(IntrospectionTarget::Terminal),
{
    let observed = seq![
        IntrospectionTarget::EngineManager,
        IntrospectionTarget::Router,
        IntrospectionTarget::Terminal,
    ];
    assert(observed[0] == IntrospectionTarget::EngineManager);
    assert(observed[1] == IntrospectionTarget::Router);
    assert(observed[2] == IntrospectionTarget::Terminal);
}

/// Every question is counted, until the count has reached the largest number.
pub proof fn law_every_question_is_counted(handled: u64, times: nat)
    ensures
        counted_times(handled, times) == if handled + times <= u64::MAX {
            handled + times
        } else {
            u64::MAX as int
        },
    decreases times,
{
    if times > 0 {
        law_every_question_is_counted(handled, (times - 1) as nat);
    }
}

/// Nothing has been observed: whatever is asked, every reading in the answer is unknown.
pub proof fn law_every_reading_is_unknown(request: RequestView)
    ensures
        reply_to(request) matches ReplyView::ComponentSnapshot { readiness, .. } ==> readiness
            == ComponentReadiness::Unknown,
        reply_to(request) matches ReplyView::DeliveryTrace { status, .. } ==> status
            == DeliveryTraceStatus::Unknown,
        reply_to(request) matches ReplyView::PrototypeWitness {
            manager_seen,
            router_seen,
            terminal_seen,
            delivery_status,
            ..
        } ==> manager_seen == ComponentReadiness::Unknown && router_seen
            == ComponentReadiness::Unknown && terminal_seen == ComponentReadiness::Unknown
            && delivery_status == DeliveryTraceStatus::Unknown,
{
}

/// Whatever a root has answered before, its answer to a question is of the question's kind, is
/// about the very engine, component and delivery that were asked about, names exactly the manager,
/// the router and the terminal as observed, and claims no reading. The question is counted, unless
/// the count cannot grow.
pub proof fn law_root_answers_what_it_is_asked(
    root: &mut IntrospectionRoot,
    request: IntrospectionRequest,
    reply: IntrospectionReply,
)
    requires
        call_ensures(IntrospectionRoot::handle_request, (root, request), reply),
    ensures
        match request {
            IntrospectionRequest::EngineSnapshot(query) => {
                &&& reply matches IntrospectionReply::EngineSnapshot(snapshot)
                &&& snapshot.engine@ == query.engine@
                &&& snapshot.observed_components@.len() == 3
                &&& snapshot.observed_components@[0] == IntrospectionTarget::EngineManager
                &&& snapshot.observed_components@[1] == IntrospectionTarget::Router
                &&& snapshot.observed_components@[2] == IntrospectionTarget::Terminal
            },
            IntrospectionRequest::ComponentSnapshot(query) => {
                &&& reply matches IntrospectionReply::ComponentSnapshot(snapshot)
                &&& snapshot.engine@ == query.engine@
                &&& snapshot.target == query.target
                &&& snapshot.readiness == ComponentReadiness::Unknown
            },
            IntrospectionRequest::DeliveryTrace(query) => {
                &&& reply matches IntrospectionReply::DeliveryTrace(trace)
                &&& trace.engine@ == query.engine@
                &&& trace.correlation@ == query.correlation@
                &&& trace.status == DeliveryTraceStatus::Unknown
            },
            IntrospectionRequest::PrototypeWitness(query) => {
                &&& reply matches IntrospectionReply::PrototypeWitness(witness)
                &&& witness.engine@ == query.engine@
                &&& witness.manager_seen == ComponentReadiness::Unknown
                &&& witness.router_seen == ComponentReadiness::Unknown
                &&& witness.terminal_seen == ComponentReadiness::Unknown
                &&& witness.delivery_status == DeliveryTraceStatus::Unknown
            },
        },
        old(root)@ < u64::MAX ==> final(root)@ == old(root)@ + 1,
        old(root)@ == u64::MAX ==> final(root)@ == u64::MAX,
{
}

/// The witness of a prototype is the answer to the question for it, however it is asked for, and
/// is counted as that question is.
pub proof fn law_witness_is_the_answer_to_its_question(
    root: &mut IntrospectionRoot,
    asked: &mut IntrospectionRoot,
    query: PrototypeWitnessQuery,
    witness: IntrospectionReply,
    answer: IntrospectionReply,
)
    requires
        call_ensures(IntrospectionRoot::prototype_witness, (root, query), witness),
        call_ensures(
            IntrospectionRoot::handle_request,
            (asked, IntrospectionRequest::PrototypeWitness(query)),
            answer,
        ),
        old(root)@ == old(asked)@,
    ensures
        final(root)@ == final(asked)@,
        witness matches IntrospectionReply::PrototypeWitness(given)
            && answer matches IntrospectionReply::PrototypeWitness(answered) && {
            &&& given.engine@ == query.engine@
            &&& given.engine@ == answered.engine@
            &&& given.manager_seen == ComponentReadiness::Unknown
            &&& given.router_seen == ComponentReadiness::Unknown
            &&& given.terminal_seen == ComponentReadiness::Unknown
            &&& given.delivery_status == DeliveryTraceStatus::Unknown
        },
        old(root)@ < u64::MAX ==> final(root)@ == old(root)@ + 1,
{
}

/// A root starts with parts that know what it was given: the directory as it is, and each client
/// the socket that the directory has for it and no other. Nothing has been counted.
pub proof fn law_parts_start_with_what_was_given(
    targets: TargetSocketDirectory,
    started: StartedRoot,
    sockets: &TargetSocketDirectory,
    manager: Option<&PathBuf>,
    router: Option<&PathBuf>,
    terminal: Option<&PathBuf>,
    planned: u64,
    rendered: u64,
)
    requires
        call_ensures(
            IntrospectionRoot::start_root,
            (IntrospectionRootInput { targets },),
            started,
        ),
        call_ensures(TargetDirectory::sockets, (&started.target_directory,), sockets),
        call_ensures(ManagerClient::socket, (&started.manager_client,), manager),
        call_ensures(RouterClient::socket, (&started.router_client,), router),
        call_ensures(TerminalClient::socket, (&started.terminal_client,), terminal),
        call_ensures(QueryPlanner::planned_queries, (&started.query_planner,), planned),
        call_ensures(NotaProjection::rendered_outputs, (&started.projection,), rendered),
    ensures
        sockets.manager_socket == targets.manager_socket,
        sockets.router_socket == targets.router_socket,
        sockets.terminal_socket == targets.terminal_socket,
        manager is Some <==> targets.manager_socket is Some,
        manager matches Some(socket) ==> targets.manager_socket == Some(*socket),
        router is Some <==> targets.router_socket is Some,
        router matches Some(socket) ==> targets.router_socket == Some(*socket),
        terminal is Some <==> targets.terminal_socket is Some,
        terminal matches Some(socket) ==> targets.terminal_socket == Some(*socket),
        planned == 0,
        rendered == 0,
        started.root@ == 0,
{
}

/// A client knows the socket that it was made with, and a directory the sockets.
pub proof fn law_part_keeps_what_it_was_made_with(
    socket: Option<PathBuf>,
    targets: TargetSocketDirectory,
    manager: ManagerClient,
    router: RouterClient,
    terminal: TerminalClient,
    directory: TargetDirectory,
    manager_socket: Option<&PathBuf>,
    router_socket: Option<&PathBuf>,
    terminal_socket: Option<&PathBuf>,
    sockets: &TargetSocketDirectory,
)
    requires
        call_ensures(ManagerClient::new, (socket,), manager),
        call_ensures(RouterClient::new, (socket,), router),
        call_ensures(TerminalClient::new, (socket,), terminal),
        call_ensures(TargetDirectory::new, (targets,), directory),
        call_ensures(ManagerClient::socket, (&manager,), manager_socket),
        call_ensures(RouterClient::socket, (&router,), router_socket),
        call_ensures(TerminalClient::socket, (&terminal,), terminal_socket),
        call_ensures(TargetDirectory::sockets, (&directory,), sockets),
    ensures
        *sockets == targets,
        socket is None ==> manager_socket is None && router_socket is None
            && terminal_socket is None,
        socket matches Some(path) ==> {
            &&& manager_socket matches Some(known) && *known == path
            &&& router_socket matches Some(known) && *known == path
            &&& terminal_socket matches Some(known) && *known == path
        },
{
}

/// New counters have counted nothing, whichever way they are made.
pub proof fn law_counters_start_at_nothing(
    planner: QueryPlanner,
    default_planner: QueryPlanner,
    projection: NotaProjection,
    default_projection: NotaProjection,
    planned: u64,
    default_planned: u64,
    rendered: u64,
    default_rendered: u64,
)
    requires
        call_ensures(QueryPlanner::new, (), planner),
        call_ensures(<QueryPlanner as Default>::default, (), default_planner),
        call_ensures(NotaProjection::new, (), projection),
        call_ensures(<NotaProjection as Default>::default, (), default_projection),
        call_ensures(QueryPlanner::planned_queries, (&planner,), planned),
        call_ensures(QueryPlanner::planned_queries, (&default_planner,), default_planned),
        call_ensures(NotaProjection::rendered_outputs, (&projection,), rendered),
        call_ensures(NotaProjection::rendered_outputs, (&default_projection,), default_rendered),
    ensures
        planned == 0,
        default_planned == 0,
        rendered == 0,
        default_rendered == 0,
{
}

} // verus!
