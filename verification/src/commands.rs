//! Queries, auctions and commands: the exchange that each one takes.

use crate::client::Client;
use crate::collect::{begin, Collector};
use crate::relay::{Relay, RelayState, EVENT_QUEUE_CAPACITY};
use crate::subject::{control_event_of, Operation};
use crate::types::{
    Broadcast, Payload, PayloadView, Publication, PublicationView, RegistryCredential, Request,
};
use std::collections::HashMap;
use vstd::prelude::*;
use vstd::string::*;

verus! {

/// A subscription to a lattice's events, yet to be made: the subject to
/// subscribe to, the capacity of the queue between the relay and its
/// consumer, and the relay that serves the two.
#[derive(Debug)]
pub struct EventFeed {
    pub subject: String,
    pub capacity: usize,
    pub relay: Relay,
}

impl<C, S> Client<C, S> {
    /// Asks one host for what it runs.
    pub fn get_host_inventory(&self, host_id: &str) -> (r: Request)
        ensures
            r@ == self.request_for(Operation::HostInventory, host_id@, PayloadView::Empty),
    {
        self.request(Operation::HostInventory, host_id, Payload::Empty)
    }

    /// Asks every host whether it could run the actor under the given
    /// constraints. The answers are gathered for the whole window; that
    /// there is any is not promised.
    pub fn perform_actor_auction(&self, actor_ref: &str, constraints: HashMap<String, String>) -> (r:
        Broadcast)
        ensures
            r@ == self.broadcast_for(
                Operation::ActorAuction,
                PayloadView::ActorAuction { actor_ref: actor_ref@, constraints },
            ),
    {
        self.broadcast(
            Operation::ActorAuction,
            Payload::ActorAuction { actor_ref: String::from_str(actor_ref), constraints },
        )
    }

    /// Asks every host whether it could run the provider under the given
    /// constraints. The answers are gathered for the whole window; that
    /// there is any is not promised.
    pub fn perform_provider_auction(
        &self,
        provider_ref: &str,
        link_name: &str,
        constraints: HashMap<String, String>,
    ) -> (r: Broadcast)
        ensures
            r@ == self.broadcast_for(
                Operation::ProviderAuction,
                PayloadView::ProviderAuction {
                    provider_ref: provider_ref@,
                    link_name: link_name@,
                    constraints,
                },
            ),
    {
        self.broadcast(
            Operation::ProviderAuction,
            Payload::ProviderAuction {
                provider_ref: String::from_str(provider_ref),
                link_name: String::from_str(link_name),
                constraints,
            },
        )
    }

    /// Tells a host to start an actor. The reply says that the host took
    /// the command, not that the actor runs.
    pub fn start_actor(
        &self,
        host_id: &str,
        actor_ref: &str,
        count: u16,
        annotations: Option<HashMap<String, String>>,
    ) -> (r: Request)
        ensures
            r@ == self.request_for(
                Operation::StartActor,
                host_id@,
                PayloadView::StartActor {
                    host_id: host_id@,
                    actor_ref: actor_ref@,
                    count,
                    annotations,
                },
            ),
    {
        self.request(
            Operation::StartActor,
            host_id,
            Payload::StartActor {
                host_id: String::from_str(host_id),
                actor_ref: String::from_str(actor_ref),
                count,
                annotations,
            },
        )
    }

    /// Tells a host to run `count` instances of an actor. The reply says
    /// that the host took the command, not that the actor was scaled.
    pub fn scale_actor(
        &self,
        host_id: &str,
        actor_ref: &str,
        actor_id: &str,
        count: u16,
        annotations: Option<HashMap<String, String>>,
    ) -> (r: Request)
        ensures
            r@ == self.request_for(
                Operation::ScaleActor,
                host_id@,
                PayloadView::ScaleActor {
                    host_id: host_id@,
                    actor_ref: actor_ref@,
                    actor_id: actor_id@,
                    count,
                    annotations,
                },
            ),
    {
        self.request(
            Operation::ScaleActor,
            host_id,
            Payload::ScaleActor {
                host_id: String::from_str(host_id),
                actor_ref: String::from_str(actor_ref),
                actor_id: String::from_str(actor_id),
                count,
                annotations,
            },
        )
    }

    /// Publishes a map of registry credentials, which every host takes in
    /// place of its own. No reply is waited for.
    pub fn put_registries(&self, registries: HashMap<String, RegistryCredential>) -> (r:
        Publication)
        ensures
            r@ == (PublicationView {
                subject: self.subject_for(Operation::PublishRegistries, Seq::empty()),
                payload: PayloadView::Registries(registries),
            }),
    {
        proof {
            reveal_strlit("");
        }
        Publication {
            subject: self.address(Operation::PublishRegistries, ""),
            payload: Payload::Registries(registries),
        }
    }

    /// Tells a host to replace a running actor by the one at a new
    /// reference. The reply comes before the new actor is fetched.
    pub fn update_actor(
        &self,
        host_id: &str,
        existing_actor_id: &str,
        new_actor_ref: &str,
        annotations: Option<HashMap<String, String>>,
    ) -> (r: Request)
        ensures
            r@ == self.request_for(
                Operation::UpdateActor,
                host_id@,
                PayloadView::UpdateActor {
                    host_id: host_id@,
                    actor_id: existing_actor_id@,
                    new_actor_ref: new_actor_ref@,
                    annotations,
                },
            ),
    {
        self.request(
            Operation::UpdateActor,
            host_id,
            Payload::UpdateActor {
                host_id: String::from_str(host_id),
                actor_id: String::from_str(existing_actor_id),
                new_actor_ref: String::from_str(new_actor_ref),
                annotations,
            },
        )
    }

    /// Tells a host to stop a provider. The reply says that the host took
    /// the command, not that the provider has ended.
    pub fn stop_provider(
        &self,
        host_id: &str,
        provider_ref: &str,
        link_name: &str,
        contract_id: &str,
        annotations: Option<HashMap<String, String>>,
    ) -> (r: Request)
        ensures
            r@ == self.request_for(
                Operation::StopProvider,
                host_id@,
                PayloadView::StopProvider {
                    host_id: host_id@,
                    provider_ref: provider_ref@,
                    link_name: link_name@,
                    contract_id: contract_id@,
                    annotations,
                },
            ),
    {
        self.request(
            Operation::StopProvider,
            host_id,
            Payload::StopProvider {
                host_id: String::from_str(host_id),
                provider_ref: String::from_str(provider_ref),
                link_name: String::from_str(link_name),
                contract_id: String::from_str(contract_id),
                annotations,
            },
        )
    }

    /// Tells a host to stop instances of an actor. The reply says that the
    /// host took the command, not that the actor has ended.
    pub fn stop_actor(
        &self,
        host_id: &str,
        actor_ref: &str,
        count: u16,
        annotations: Option<HashMap<String, String>>,
    ) -> (r: Request)
        ensures
            r@ == self.request_for(
                Operation::StopActor,
                host_id@,
                PayloadView::StopActor {
                    host_id: host_id@,
                    actor_ref: actor_ref@,
                    count,
                    annotations,
                },
            ),
    {
        self.request(
            Operation::StopActor,
            host_id,
            Payload::StopActor {
                host_id: String::from_str(host_id),
                actor_ref: String::from_str(actor_ref),
                count,
                annotations,
            },
        )
    }

    /// Tells a host to shut down, within `timeout_ms` milliseconds if that
    /// is given. The reply comes before the host goes down.
    pub fn stop_host(&self, host_id: &str, timeout_ms: Option<u64>) -> (r: Request)
        ensures
            r@ == self.request_for(
                Operation::StopHost,
                host_id@,
                PayloadView::StopHost { host_id: host_id@, timeout: timeout_ms },
            ),
    {
        self.request(
            Operation::StopHost,
            host_id,
            Payload::StopHost { host_id: String::from_str(host_id), timeout: timeout_ms },
        )
    }

    /// Begins the gathering of a broadcast's replies on `reply_subject`,
    /// which has to be fresh for this call. It lasts for the client's
    /// window.
    pub fn publish_and_wait<T>(&self, reply_subject: String) -> (r: Collector<T>)
        ensures
            r@ == begin::<T>(reply_subject@, self.window()),
    {
        Collector::new(reply_subject, self.auction_window())
    }

    /// Describes a subscription to the lattice's events. Each call gives a
    /// feed of its own, which starts with the events published from then
    /// on: there is no replay.
    pub fn events_receiver(&self) -> (r: EventFeed)
        ensures
            r.subject@ == control_event_of(self.lattice()),
            r.capacity == EVENT_QUEUE_CAPACITY,
            r.relay.state() == RelayState::Receiving,
    {
        EventFeed {
            subject: self.event_subject(),
            capacity: EVENT_QUEUE_CAPACITY,
            relay: Relay::new(),
        }
    }
}

} // verus!
