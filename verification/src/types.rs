//! The values that travel between a client and a lattice, and what the
//! contracts read in them.

use std::collections::HashMap;
use vstd::prelude::*;

verus! {

/// Says that a request was received and whether it was accepted; never that
/// the work it asks for is done. `error` is empty when `accepted` is true
/// and nothing went wrong.
#[derive(Clone, Debug, PartialEq, Eq)]
pub struct CtlOperationAck {
    pub accepted: bool,
    pub error: String,
}

/// An acknowledgement as the contracts see it.
pub struct AckView {
    pub accepted: bool,
    pub error: Seq<char>,
}

impl View for CtlOperationAck {
    type V = AckView;

    open spec fn view(&self) -> AckView {
        AckView { accepted: self.accepted, error: self.error@ }
    }
}

/// A host that answered a discovery query.
#[derive(Clone, Debug, PartialEq, Eq)]
pub struct Host {
    pub id: String,
}

/// Binds an actor to a provider under a contract and a link name. The
/// triple of actor id, contract id and link name identifies it.
#[derive(Clone, Debug, PartialEq, Eq)]
pub struct LinkDefinition {
    pub actor_id: String,
    pub provider_id: String,
    pub link_name: String,
    pub contract_id: String,
    pub values: HashMap<String, String>,
}

/// A link definition as the contracts see it: its names as text, its
/// values as they were given.
pub struct LinkView {
    pub actor_id: Seq<char>,
    pub provider_id: Seq<char>,
    pub link_name: Seq<char>,
    pub contract_id: Seq<char>,
    pub values: HashMap<String, String>,
}

impl View for LinkDefinition {
    type V = LinkView;

    open spec fn view(&self) -> LinkView {
        LinkView {
            actor_id: self.actor_id@,
            provider_id: self.provider_id@,
            link_name: self.link_name@,
            contract_id: self.contract_id@,
            values: self.values,
        }
    }
}

/// The credentials a host uses for one registry.
#[derive(Clone, Debug, PartialEq, Eq)]
pub struct RegistryCredential {
    pub password: Option<String>,
    pub token: Option<String>,
    pub username: Option<String>,
    pub registry_type: String,
}

/// What an optional string reads as in contracts.
pub open spec fn text_view(o: Option<String>) -> Option<Seq<char>> {
    match o {
        Some(s) => Some(s@),
        None => None,
    }
}

/// The body of an outgoing message, before it is encoded.
#[derive(Clone, Debug, PartialEq, Eq)]
pub enum Payload {
    Empty,
    ActorAuction { actor_ref: String, constraints: HashMap<String, String> },
    ProviderAuction { provider_ref: String, link_name: String, constraints: HashMap<String, String> },
    StartActor {
        host_id: String,
        actor_ref: String,
        count: u16,
        annotations: Option<HashMap<String, String>>,
    },
    ScaleActor {
        host_id: String,
        actor_ref: String,
        actor_id: String,
        count: u16,
        annotations: Option<HashMap<String, String>>,
    },
    StopActor {
        host_id: String,
        actor_ref: String,
        count: u16,
        annotations: Option<HashMap<String, String>>,
    },
    UpdateActor {
        host_id: String,
        actor_id: String,
        new_actor_ref: String,
        annotations: Option<HashMap<String, String>>,
    },
    StartProvider {
        host_id: String,
        provider_ref: String,
        link_name: String,
        annotations: Option<HashMap<String, String>>,
        configuration: Option<String>,
    },
    StopProvider {
        host_id: String,
        provider_ref: String,
        link_name: String,
        contract_id: String,
        annotations: Option<HashMap<String, String>>,
    },
    StopHost { host_id: String, timeout: Option<u64> },
    Link(LinkDefinition),
    LinkRemoval { actor_id: String, contract_id: String, link_name: String },
    Registries(HashMap<String, RegistryCredential>),
}

/// A body as the contracts see it: every name as text, every map as it
/// was given.
pub enum PayloadView {
    Empty,
    ActorAuction { actor_ref: Seq<char>, constraints: HashMap<String, String> },
    ProviderAuction {
        provider_ref: Seq<char>,
        link_name: Seq<char>,
        constraints: HashMap<String, String>,
    },
    StartActor {
        host_id: Seq<char>,
        actor_ref: Seq<char>,
        count: u16,
        annotations: Option<HashMap<String, String>>,
    },
    ScaleActor {
        host_id: Seq<char>,
        actor_ref: Seq<char>,
        actor_id: Seq<char>,
        count: u16,
        annotations: Option<HashMap<String, String>>,
    },
    StopActor {
        host_id: Seq<char>,
        actor_ref: Seq<char>,
        count: u16,
        annotations: Option<HashMap<String, String>>,
    },
    UpdateActor {
        host_id: Seq<char>,
        actor_id: Seq<char>,
        new_actor_ref: Seq<char>,
        annotations: Option<HashMap<String, String>>,
    },
    StartProvider {
        host_id: Seq<char>,
        provider_ref: Seq<char>,
        link_name: Seq<char>,
        annotations: Option<HashMap<String, String>>,
        configuration: Option<Seq<char>>,
    },
    StopProvider {
        host_id: Seq<char>,
        provider_ref: Seq<char>,
        link_name: Seq<char>,
        contract_id: Seq<char>,
        annotations: Option<HashMap<String, String>>,
    },
    StopHost { host_id: Seq<char>, timeout: Option<u64> },
    Link(LinkView),
    LinkRemoval { actor_id: Seq<char>, contract_id: Seq<char>, link_name: Seq<char> },
    Registries(HashMap<String, RegistryCredential>),
}

impl View for Payload {
    type V = PayloadView;

    open spec fn view(&self) -> PayloadView {
        match *self {
            Payload::Empty => PayloadView::Empty,
            Payload::ActorAuction { actor_ref, constraints } => PayloadView::ActorAuction {
                actor_ref: actor_ref@,
                constraints,
            },
            Payload::ProviderAuction {
                provider_ref,
                link_name,
                constraints,
            } => PayloadView::ProviderAuction {
                provider_ref: provider_ref@,
                link_name: link_name@,
                constraints,
            },
            Payload::StartActor { host_id, actor_ref, count, annotations } => PayloadView::StartActor {
                host_id: host_id@,
                actor_ref: actor_ref@,
                count,
                annotations,
            },
            Payload::ScaleActor {
                host_id,
                actor_ref,
                actor_id,
                count,
                annotations,
            } => PayloadView::ScaleActor {
                host_id: host_id@,
                actor_ref: actor_ref@,
                actor_id: actor_id@,
                count,
                annotations,
            },
            Payload::StopActor { host_id, actor_ref, count, annotations } => PayloadView::StopActor {
                host_id: host_id@,
                actor_ref: actor_ref@,
                count,
                annotations,
            },
            Payload::UpdateActor {
                host_id,
                actor_id,
                new_actor_ref,
                annotations,
            } => PayloadView::UpdateActor {
                host_id: host_id@,
                actor_id: actor_id@,
                new_actor_ref: new_actor_ref@,
                annotations,
            },
            Payload::StartProvider {
                host_id,
                provider_ref,
                link_name,
                annotations,
                configuration,
            } => PayloadView::StartProvider {
                host_id: host_id@,
                provider_ref: provider_ref@,
                link_name: link_name@,
                annotations,
                configuration: text_view(configuration),
            },
            Payload::StopProvider {
                host_id,
                provider_ref,
                link_name,
                contract_id,
                annotations,
            } => PayloadView::StopProvider {
                host_id: host_id@,
                provider_ref: provider_ref@,
                link_name: link_name@,
                contract_id: contract_id@,
                annotations,
            },
            Payload::StopHost { host_id, timeout } => PayloadView::StopHost {
                host_id: host_id@,
                timeout,
            },
            Payload::Link(link) => PayloadView::Link(link@),
            Payload::LinkRemoval { actor_id, contract_id, link_name } => PayloadView::LinkRemoval {
                actor_id: actor_id@,
                contract_id: contract_id@,
                link_name: link_name@,
            },
            Payload::Registries(registries) => PayloadView::Registries(registries),
        }
    }
}

/// One request that expects one reply within `timeout_ms` milliseconds.
#[derive(Clone, Debug, PartialEq, Eq)]
pub struct Request {
    pub subject: String,
    pub payload: Payload,
    pub timeout_ms: u64,
}

/// A request as the contracts see it.
pub struct RequestView {
    pub subject: Seq<char>,
    pub payload: PayloadView,
    pub timeout_ms: u64,
}

impl View for Request {
    type V = RequestView;

    open spec fn view(&self) -> RequestView {
        RequestView { subject: self.subject@, payload: self.payload@, timeout_ms: self.timeout_ms }
    }
}

/// One request sent to every listener, whose replies are gathered for
/// `window_ms` milliseconds.
#[derive(Clone, Debug, PartialEq, Eq)]
pub struct Broadcast {
    pub subject: String,
    pub payload: Payload,
    pub window_ms: u64,
}

/// A broadcast as the contracts see it.
pub struct BroadcastView {
    pub subject: Seq<char>,
    pub payload: PayloadView,
    pub window_ms: u64,
}

impl View for Broadcast {
    type V = BroadcastView;

    open spec fn view(&self) -> BroadcastView {
        BroadcastView { subject: self.subject@, payload: self.payload@, window_ms: self.window_ms }
    }
}

/// One message sent without waiting for any reply.
#[derive(Clone, Debug, PartialEq, Eq)]
pub struct Publication {
    pub subject: String,
    pub payload: Payload,
}

/// A publication as the contracts see it.
pub struct PublicationView {
    pub subject: Seq<char>,
    pub payload: PayloadView,
}

impl View for Publication {
    type V = PublicationView;

    open spec fn view(&self) -> PublicationView {
        PublicationView { subject: self.subject@, payload: self.payload@ }
    }
}

} // verus!
