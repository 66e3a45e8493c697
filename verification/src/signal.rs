//! The questions that the component is asked, and its answers.

use vstd::prelude::*;

verus! {

/// The name of an engine.
#[derive(Debug, PartialEq, Eq)]
pub struct EngineId {
    name: String,
}

impl View for EngineId {
    type V = Seq<char>;

    closed spec fn view(&self) -> Seq<char> {
        self.name@
    }
}

impl EngineId {
    pub fn new(name: &str) -> (res: Self)
        ensures
            res@ == name@,
    {
        Self { name: name.to_owned() }
    }

    pub fn as_str(&self) -> (res: &str)
        ensures
            res@ == self@,
    {
        self.name.as_str()
    }
}

impl Clone for EngineId {
    fn clone(&self) -> (res: Self)
        ensures
            res@ == self@,
    {
        Self { name: self.name.clone() }
    }
}

/// The name under which a delivery is traced.
#[derive(Debug, PartialEq, Eq)]
pub struct CorrelationId {
    name: String,
}

impl View for CorrelationId {
    type V = Seq<char>;

    closed spec fn view(&self) -> Seq<char> {
        self.name@
    }
}

impl CorrelationId {
    pub fn new(name: &str) -> (res: Self)
        ensures
            res@ == name@,
    {
        Self { name: name.to_owned() }
    }

    pub fn as_str(&self) -> (res: &str)
        ensures
            res@ == self@,
    {
        self.name.as_str()
    }
}

impl Clone for CorrelationId {
    fn clone(&self) -> (res: Self)
        ensures
            res@ == self@,
    {
        Self { name: self.name.clone() }
    }
}

/// A component that can be looked at. One that has no name here is known by a number that the
/// caller gives it and finds it again by.
#[derive(Debug, Clone, Copy, PartialEq, Eq, Structural)]
pub enum IntrospectionTarget {
    EngineManager,
    Router,
    Terminal,
    Other(u32),
}

/// Whether a component is ready. A reading that has no name here is known by a number that the
/// caller gives it.
#[derive(Debug, Clone, Copy, PartialEq, Eq, Structural)]
pub enum ComponentReadiness {
    Unknown,
    Other(u32),
}

/// How far a delivery has come. A status that has no name here is known by a number that the
/// caller gives it.
#[derive(Debug, Clone, Copy, PartialEq, Eq, Structural)]
pub enum DeliveryTraceStatus {
    Unknown,
    Other(u32),
}

/// Asks which components of an engine are observed.
#[derive(Debug, Clone, PartialEq, Eq)]
pub struct EngineSnapshotQuery {
    pub engine: EngineId,
}

/// Asks for the state of one component of an engine.
#[derive(Debug, Clone, PartialEq, Eq)]
pub struct ComponentSnapshotQuery {
    pub engine: EngineId,
    pub target: IntrospectionTarget,
}

/// Asks for the state of one delivery in an engine.
#[derive(Debug, Clone, PartialEq, Eq)]
pub struct DeliveryTraceQuery {
    pub engine: EngineId,
    pub correlation: CorrelationId,
}

/// Asks what has been seen of an engine's prototype.
#[derive(Debug, Clone, PartialEq, Eq)]
pub struct PrototypeWitnessQuery {
    pub engine: EngineId,
}

/// A question to the component.
#[derive(Debug, Clone, PartialEq, Eq)]
pub enum IntrospectionRequest {
    EngineSnapshot(EngineSnapshotQuery),
    ComponentSnapshot(ComponentSnapshotQuery),
    DeliveryTrace(DeliveryTraceQuery),
    PrototypeWitness(PrototypeWitnessQuery),
}

/// A question, by its contents.
pub enum RequestView {
    EngineSnapshot { engine: Seq<char> },
    ComponentSnapshot { engine: Seq<char>, target: IntrospectionTarget },
    DeliveryTrace { engine: Seq<char>, correlation: Seq<char> },
    PrototypeWitness { engine: Seq<char> },
}

impl View for IntrospectionRequest {
    type V = RequestView;

    open spec fn view(&self) -> RequestView {
        match self {
            IntrospectionRequest::EngineSnapshot(query) => RequestView::EngineSnapshot {
                engine: query.engine@,
            },
            IntrospectionRequest::ComponentSnapshot(query) => RequestView::ComponentSnapshot {
                engine: query.engine@,
                target: query.target,
            },
            IntrospectionRequest::DeliveryTrace(query) => RequestView::DeliveryTrace {
                engine: query.engine@,
                correlation: query.correlation@,
            },
            IntrospectionRequest::PrototypeWitness(query) => RequestView::PrototypeWitness {
                engine: query.engine@,
            },
        }
    }
}

impl RequestView {
    /// The engine that the question is about.
    pub open spec fn engine(self) -> Seq<char> {
        match self {
            RequestView::EngineSnapshot { engine } => engine,
            RequestView::ComponentSnapshot { engine, .. } => engine,
            RequestView::DeliveryTrace { engine, .. } => engine,
            RequestView::PrototypeWitness { engine } => engine,
        }
    }
}

/// Which components of an engine are observed.
#[derive(Debug, PartialEq, Eq)]
pub struct EngineSnapshot {
    pub engine: EngineId,
    pub observed_components: Vec<IntrospectionTarget>,
}

/// The state of one component of an engine.
#[derive(Debug, PartialEq, Eq)]
pub struct ComponentSnapshot {
    pub engine: EngineId,
    pub target: IntrospectionTarget,
    pub readiness: ComponentReadiness,
}

/// The state of one delivery in an engine.
#[derive(Debug, PartialEq, Eq)]
pub struct DeliveryTrace {
    pub engine: EngineId,
    pub correlation: CorrelationId,
    pub status: DeliveryTraceStatus,
}

/// What has been seen of an engine's prototype.
#[derive(Debug, PartialEq, Eq)]
pub struct PrototypeWitness {
    pub engine: EngineId,
    pub manager_seen: ComponentReadiness,
    pub router_seen: ComponentReadiness,
    pub terminal_seen: ComponentReadiness,
    pub delivery_status: DeliveryTraceStatus,
}

/// An answer of the component.
#[derive(Debug, PartialEq, Eq)]
pub enum IntrospectionReply {
    EngineSnapshot(EngineSnapshot),
    ComponentSnapshot(ComponentSnapshot),
    DeliveryTrace(DeliveryTrace),
    PrototypeWitness(PrototypeWitness),
}

/// An answer, by its contents.
pub enum ReplyView {
    EngineSnapshot { engine: Seq<char>, observed_components: Seq<IntrospectionTarget> },
    ComponentSnapshot {
        engine: Seq<char>,
        target: IntrospectionTarget,
        readiness: ComponentReadiness,
    },
    DeliveryTrace { engine: Seq<char>, correlation: Seq<char>, status: DeliveryTraceStatus },
    PrototypeWitness {
        engine: Seq<char>,
        manager_seen: ComponentReadiness,
        router_seen: ComponentReadiness,
        terminal_seen: ComponentReadiness,
        delivery_status: DeliveryTraceStatus,
    },
}

impl View for IntrospectionReply {
    type V = ReplyView;

    open spec fn view(&self) -> ReplyView {
        match self {
            IntrospectionReply::EngineSnapshot(snapshot) => ReplyView::EngineSnapshot {
                engine: snapshot.engine@,
                observed_components: snapshot.observed_components@,
            },
            IntrospectionReply::ComponentSnapshot(snapshot) => ReplyView::ComponentSnapshot {
                engine: snapshot.engine@,
                target: snapshot.target,
                readiness: snapshot.readiness,
            },
            IntrospectionReply::DeliveryTrace(trace) => ReplyView::DeliveryTrace {
                engine: trace.engine@,
                correlation: trace.correlation@,
                status: trace.status,
            },
            IntrospectionReply::PrototypeWitness(witness) => ReplyView::PrototypeWitness {
                engine: witness.engine@,
                manager_seen: witness.manager_seen,
                router_seen: witness.router_seen,
                terminal_seen: witness.terminal_seen,
                delivery_status: witness.delivery_status,
            },
        }
    }
}

impl ReplyView {
    /// The engine that the answer is about.
    pub open spec fn engine(self) -> Seq<char> {
        match self {
            ReplyView::EngineSnapshot { engine, .. } => engine,
            ReplyView::ComponentSnapshot { engine, .. } => engine,
            ReplyView::DeliveryTrace { engine, .. } => engine,
            ReplyView::PrototypeWitness { engine, .. } => engine,
        }
    }
}

impl Clone for IntrospectionReply {
    fn clone(&self) -> (res: Self)
        ensures
            res@ == self@,
    {
        match self {
            IntrospectionReply::EngineSnapshot(snapshot) => {
                let observed_components = snapshot.observed_components.clone();
                assert(observed_components@ == snapshot.observed_components@);
                IntrospectionReply::EngineSnapshot(
                    EngineSnapshot { engine: snapshot.engine.clone(), observed_components },
                )
            },
            IntrospectionReply::ComponentSnapshot(snapshot) => {
                IntrospectionReply::ComponentSnapshot(
                    ComponentSnapshot {
                        engine: snapshot.engine.clone(),
                        target: snapshot.target,
                        readiness: snapshot.readiness,
                    },
                )
            },
            IntrospectionReply::DeliveryTrace(trace) => {
                IntrospectionReply::DeliveryTrace(
                    DeliveryTrace {
                        engine: trace.engine.clone(),
                        correlation: trace.correlation.clone(),
                        status: trace.status,
                    },
                )
            },
            IntrospectionReply::PrototypeWitness(witness) => {
                IntrospectionReply::PrototypeWitness(
                    PrototypeWitness {
                        engine: witness.engine.clone(),
                        manager_seen: witness.manager_seen,
                        router_seen: witness.router_seen,
                        terminal_seen: witness.terminal_seen,
                        delivery_status: witness.delivery_status,
                    },
                )
            },
        }
    }
}

/// The name of an engine is the text that it was given, and a copy has the same.
pub proof fn law_engine_keeps_its_name(
    name: &str,
    engine: EngineId,
    copy: EngineId,
    text: &str,
    copied: &str,
)
    requires
        call_ensures(EngineId::new, (name,), engine),
        call_ensures(EngineId::as_str, (&engine,), text),
        call_ensures(<EngineId as Clone>::clone, (&engine,), copy),
        call_ensures(EngineId::as_str, (&copy,), copied),
    ensures
        text@ == name@,
        copied@ == name@,
{
}

/// The name of a delivery is the text that it was given, and a copy has the same.
pub proof fn law_correlation_keeps_its_name(
    name: &str,
    correlation: CorrelationId,
    copy: CorrelationId,
    text: &str,
    copied: &str,
)
    requires
        call_ensures(CorrelationId::new, (name,), correlation),
        call_ensures(CorrelationId::as_str, (&correlation,), text),
        call_ensures(<CorrelationId as Clone>::clone, (&correlation,), copy),
        call_ensures(CorrelationId::as_str, (&copy,), copied),
    ensures
        text@ == name@,
        copied@ == name@,
{
}

/// A copy of an answer is of the same kind and says the same in each of its parts.
pub proof fn law_copied_answer_says_the_same(reply: IntrospectionReply, copy: IntrospectionReply)
    requires
        call_ensures(<IntrospectionReply as Clone>::clone, (&reply,), copy),
    ensures
        match reply {
            IntrospectionReply::EngineSnapshot(given) => {
                &&& copy matches IntrospectionReply::EngineSnapshot(copied)
                &&& copied.engine@ == given.engine@
                &&& copied.observed_components@ == given.observed_components@
            },
            IntrospectionReply::ComponentSnapshot(given) => {
                &&& copy matches IntrospectionReply::ComponentSnapshot(copied)
                &&& copied.engine@ == given.engine@
                &&& copied.target == given.target
                &&& copied.readiness == given.readiness
            },
            IntrospectionReply::DeliveryTrace(given) => {
                &&& copy matches IntrospectionReply::DeliveryTrace(copied)
                &&& copied.engine@ == given.engine@
                &&& copied.correlation@ == given.correlation@
                &&& copied.status == given.status
            },
            IntrospectionReply::PrototypeWitness(given) => {
                &&& copy matches IntrospectionReply::PrototypeWitness(copied)
                &&& copied.engine@ == given.engine@
                &&& copied.manager_seen == given.manager_seen
                &&& copied.router_seen == given.router_seen
                &&& copied.terminal_seen == given.terminal_seen
                &&& copied.delivery_status == given.delivery_status
            },
        },
{
}

} // verus!
