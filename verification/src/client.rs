//! The client: a fixed configuration, and for each operation the exchange
//! that carries it out.

use crate::error::ClientError;
use crate::subject::{
    control_event, control_event_of, prefix_view, subject, subject_of, Operation,
};
use crate::text::{blank, is_blank};
use crate::types::{text_view, Broadcast, BroadcastView, Payload, PayloadView, Request, RequestView};
use std::collections::HashMap;
use vstd::prelude::*;
use vstd::string::*;

verus! {

/// The lattice id of a client for which none, or an empty one, was given.
pub open spec fn lattice_or_default(given: Option<Seq<char>>) -> Seq<char> {
    match given {
        Some(id) => if id.len() > 0 {
            id
        } else {
            "default"@
        },
        None => "default"@,
    }
}

/// How a client reaches claims and link definitions. It is decided when the
/// client is built and stays as it is.
#[derive(Clone, Debug)]
pub enum MetadataAccess<S> {
    /// Directly, in the lattice's key-value bucket.
    StoreBacked(S),
    /// Over the bus, by asking the hosts.
    Legacy,
}

/// A lattice control interface client. `C` is the connection to the bus and
/// `S` the handle of the metadata bucket; the client keeps both for its
/// caller and looks into neither.
#[derive(Debug)]
pub struct Client<C, S> {
    nc: C,
    topic_prefix: Option<String>,
    ns_prefix: String,
    timeout_ms: u64,
    auction_timeout_ms: u64,
    access: MetadataAccess<S>,
}

/// A provider start that had no host to go to: what to ask the lattice, and
/// what to start once a host is known.
#[derive(Clone, Debug, PartialEq, Eq)]
pub struct DeferredStart {
    pub discovery: Broadcast,
    pub provider_ref: String,
    pub link_name: Option<String>,
    pub annotations: Option<HashMap<String, String>>,
    pub configuration: Option<String>,
}

/// How a provider start proceeds.
#[derive(Clone, Debug, PartialEq, Eq)]
pub enum ProviderStart {
    /// A host was named: one request to it, whose reply is the answer.
    Direct(Request),
    /// No host was named: one has to be found first.
    Deferred(DeferredStart),
}

fn keep_or_default(given: Option<String>) -> (r: String)
    ensures
        r@ == lattice_or_default(text_view(given)),
        r@.len() > 0,
{
    proof {
        reveal_strlit("default");
    }
    match given {
        Some(id) => if id.as_str().is_empty() {
            String::from_str("default")
        } else {
            id
        },
        None => String::from_str("default"),
    }
}

/// Where to look for a lattice's metadata bucket: its name, and the domain
/// of the store to look in, if one is set.
#[derive(Clone, Debug, PartialEq, Eq)]
pub struct StoreProbe {
    pub bucket: String,
    pub domain: Option<String>,
}

/// The name of the metadata bucket of a lattice.
pub open spec fn bucket_of(lattice: Seq<char>) -> Seq<char> {
    "LATTICEDATA_"@ + lattice
}

/// Collects the settings of a client. Without a setting of its own the
/// client has no topic prefix, the lattice `default`, two seconds for a
/// reply and five seconds for a broadcast's replies.
#[derive(Debug)]
pub struct ClientBuilder<C> {
    nc: Option<C>,
    topic_prefix: Option<String>,
    ns_prefix: String,
    timeout_ms: u64,
    auction_timeout_ms: u64,
    js_domain: Option<String>,
}

impl<C> Default for ClientBuilder<C> {
    fn default() -> (r: Self)
        ensures
            r.link() == None::<C>,
            r.topic() == None::<Seq<char>>,
            r.lattice() == "default"@,
            r.timeout() == 2000,
            r.window() == 5000,
            r.domain() == None::<Seq<char>>,
    {
        proof {
            reveal_strlit("default");
        }
        ClientBuilder {
            nc: None,
            topic_prefix: None,
            ns_prefix: String::from_str("default"),
            timeout_ms: 2000,
            auction_timeout_ms: 5000,
            js_domain: None,
        }
    }
}

impl<C> ClientBuilder<C> {
    #[verifier::type_invariant]
    spec fn has_lattice(self) -> bool {
        self.ns_prefix@.len() > 0
    }

    /// The connection, if one was given.
    pub closed spec fn link(self) -> Option<C> {
        self.nc
    }

    /// The topic prefix, if one was set.
    pub closed spec fn topic(self) -> Option<Seq<char>> {
        prefix_view(self.topic_prefix)
    }

    /// The lattice id. It is never empty.
    pub closed spec fn lattice(self) -> Seq<char> {
        self.ns_prefix@
    }

    /// The time allowed for one reply, in milliseconds.
    pub closed spec fn timeout(self) -> u64 {
        self.timeout_ms
    }

    /// The time for which a broadcast's replies are gathered, in
    /// milliseconds.
    pub closed spec fn window(self) -> u64 {
        self.auction_timeout_ms
    }

    /// The domain of the store in which the bucket is looked for, if set.
    pub closed spec fn domain(self) -> Option<Seq<char>> {
        text_view(self.js_domain)
    }

    /// A builder for a client on the connection `nc`.
    pub fn new(nc: C) -> (r: ClientBuilder<C>)
        ensures
            r.link() == Some(nc),
            r.topic() == None::<Seq<char>>,
            r.lattice() == "default"@,
            r.timeout() == 2000,
            r.window() == 5000,
            r.domain() == None::<Seq<char>>,
    {
        proof {
            reveal_strlit("default");
        }
        ClientBuilder {
            nc: Some(nc),
            topic_prefix: None,
            ns_prefix: String::from_str("default"),
            timeout_ms: 2000,
            auction_timeout_ms: 5000,
            js_domain: None,
        }
    }

    /// Sets the prefix of the subjects of all control requests. It is not
    /// the lattice id.
    pub fn topic_prefix(self, prefix: &str) -> (r: ClientBuilder<C>)
        ensures
            r.topic() == Some(prefix@),
            r.link() == self.link(),
            r.lattice() == self.lattice(),
            r.timeout() == self.timeout(),
            r.window() == self.window(),
            r.domain() == self.domain(),
    {
        proof {
            use_type_invariant(&self);
        }
        ClientBuilder {
            nc: self.nc,
            topic_prefix: Some(String::from_str(prefix)),
            ns_prefix: self.ns_prefix,
            timeout_ms: self.timeout_ms,
            auction_timeout_ms: self.auction_timeout_ms,
            js_domain: self.js_domain,
        }
    }

    /// Sets the lattice id. An empty one is not taken: the lattice is then
    /// `default`.
    pub fn lattice_prefix(self, prefix: &str) -> (r: ClientBuilder<C>)
        ensures
            r.lattice() == lattice_or_default(Some(prefix@)),
            r.link() == self.link(),
            r.topic() == self.topic(),
            r.timeout() == self.timeout(),
            r.window() == self.window(),
            r.domain() == self.domain(),
    {
        ClientBuilder {
            nc: self.nc,
            topic_prefix: self.topic_prefix,
            ns_prefix: keep_or_default(Some(String::from_str(prefix))),
            timeout_ms: self.timeout_ms,
            auction_timeout_ms: self.auction_timeout_ms,
            js_domain: self.js_domain,
        }
    }

    /// Sets the time allowed for one reply, in milliseconds.
    pub fn rpc_timeout(self, timeout_ms: u64) -> (r: ClientBuilder<C>)
        ensures
            r.timeout() == timeout_ms,
            r.link() == self.link(),
            r.topic() == self.topic(),
            r.lattice() == self.lattice(),
            r.window() == self.window(),
            r.domain() == self.domain(),
    {
        proof {
            use_type_invariant(&self);
        }
        ClientBuilder {
            nc: self.nc,
            topic_prefix: self.topic_prefix,
            ns_prefix: self.ns_prefix,
            timeout_ms,
            auction_timeout_ms: self.auction_timeout_ms,
            js_domain: self.js_domain,
        }
    }

    /// Sets the time for which the replies to an auction are gathered, in
    /// milliseconds.
    pub fn auction_timeout(self, timeout_ms: u64) -> (r: ClientBuilder<C>)
        ensures
            r.window() == timeout_ms,
            r.link() == self.link(),
            r.topic() == self.topic(),
            r.lattice() == self.lattice(),
            r.timeout() == self.timeout(),
            r.domain() == self.domain(),
    {
        proof {
            use_type_invariant(&self);
        }
        ClientBuilder {
            nc: self.nc,
            topic_prefix: self.topic_prefix,
            ns_prefix: self.ns_prefix,
            timeout_ms: self.timeout_ms,
            auction_timeout_ms: timeout_ms,
            js_domain: self.js_domain,
        }
    }

    /// Sets the domain of the store in which the metadata bucket is looked
    /// for.
    pub fn js_domain(self, domain: &str) -> (r: ClientBuilder<C>)
        ensures
            r.domain() == Some(domain@),
            r.link() == self.link(),
            r.topic() == self.topic(),
            r.lattice() == self.lattice(),
            r.timeout() == self.timeout(),
            r.window() == self.window(),
    {
        proof {
            use_type_invariant(&self);
        }
        ClientBuilder {
            nc: self.nc,
            topic_prefix: self.topic_prefix,
            ns_prefix: self.ns_prefix,
            timeout_ms: self.timeout_ms,
            auction_timeout_ms: self.auction_timeout_ms,
            js_domain: Some(String::from_str(domain)),
        }
    }

    /// Says where the metadata bucket of the lattice is to be looked for
    /// before the client is built.
    pub fn store_probe(&self) -> (r: StoreProbe)
        ensures
            r.bucket@ == bucket_of(self.lattice()),
            text_view(r.domain) == self.domain(),
    {
        let mut bucket = String::from_str("LATTICEDATA_");
        bucket.append(self.ns_prefix.as_str());
        StoreProbe { bucket, domain: self.js_domain.clone() }
    }

    /// Builds the client. `store` is the outcome of the one look for the
    /// metadata bucket: its handle, or nothing where the bucket is absent or
    /// could not be attached. With a handle the client is store-backed, else
    /// it is in legacy mode; the absence of a bucket fails nothing. Only a
    /// builder without a connection builds no client.
    pub fn build<S>(self, store: Option<S>) -> (r: Result<Client<C, S>, ClientError>)
        ensures
            match self.link() {
                None => r == Err::<Client<C, S>, ClientError>(ClientError::NoConnection),
                Some(nc) => r matches Ok(client) && {
                    &&& client.link() == nc
                    &&& client.topic() == self.topic()
                    &&& client.lattice() == self.lattice()
                    &&& client.timeout() == self.timeout()
                    &&& client.window() == self.window()
                    &&& client.metadata() == match store {
                        Some(handle) => MetadataAccess::StoreBacked(handle),
                        None => MetadataAccess::Legacy,
                    }
                },
            },
    {
        proof {
            use_type_invariant(&self);
        }
        match self.nc {
            None => Err(ClientError::NoConnection),
            Some(nc) => Ok(
                Client {
                    nc,
                    topic_prefix: self.topic_prefix,
                    ns_prefix: self.ns_prefix,
                    timeout_ms: self.timeout_ms,
                    auction_timeout_ms: self.auction_timeout_ms,
                    access: match store {
                        Some(handle) => MetadataAccess::StoreBacked(handle),
                        None => MetadataAccess::Legacy,
                    },
                },
            ),
        }
    }
}

impl<C: Clone, S: Clone> Clone for Client<C, S> {
    fn clone(&self) -> (r: Self)
        ensures
            r.topic() == self.topic(),
            r.lattice() == self.lattice(),
            r.timeout() == self.timeout(),
            r.window() == self.window(),
            r.store_backed() == self.store_backed(),
    {
        proof {
            use_type_invariant(self);
        }
        Client {
            nc: self.nc.clone(),
            topic_prefix: self.topic_prefix.clone(),
            ns_prefix: self.ns_prefix.clone(),
            timeout_ms: self.timeout_ms,
            auction_timeout_ms: self.auction_timeout_ms,
            access: match &self.access {
                MetadataAccess::StoreBacked(store) => MetadataAccess::StoreBacked(store.clone()),
                MetadataAccess::Legacy => MetadataAccess::Legacy,
            },
        }
    }
}

impl<C, S> Client<C, S> {
    #[verifier::type_invariant]
    spec fn has_lattice(self) -> bool {
        self.ns_prefix@.len() > 0
    }

    /// The topic prefix, if one was configured.
    pub closed spec fn topic(self) -> Option<Seq<char>> {
        prefix_view(self.topic_prefix)
    }

    /// The lattice id. It is never empty.
    pub closed spec fn lattice(self) -> Seq<char> {
        self.ns_prefix@
    }

    /// The time allowed for one reply, in milliseconds.
    pub closed spec fn timeout(self) -> u64 {
        self.timeout_ms
    }

    /// The time for which the replies to a broadcast are gathered, in
    /// milliseconds.
    pub closed spec fn window(self) -> u64 {
        self.auction_timeout_ms
    }

    /// The connection the client was built with.
    pub closed spec fn link(self) -> C {
        self.nc
    }

    /// The metadata path of the client.
    pub closed spec fn metadata(self) -> MetadataAccess<S> {
        self.access
    }

    /// Whether claims and link definitions go to the bucket.
    pub open spec fn store_backed(self) -> bool {
        self.metadata() is StoreBacked
    }

    /// The subject of `operation` for this client.
    pub open spec fn subject_for(self, operation: Operation, target: Seq<char>) -> Seq<char> {
        subject_of(self.topic(), self.lattice(), operation, target)
    }

    /// A request for one reply, as this client sends it.
    pub open spec fn request_for(
        self,
        operation: Operation,
        target: Seq<char>,
        payload: PayloadView,
    ) -> RequestView {
        RequestView {
            subject: self.subject_for(operation, target),
            payload,
            timeout_ms: self.timeout(),
        }
    }

    /// A broadcast, as this client sends it.
    pub open spec fn broadcast_for(self, operation: Operation, payload: PayloadView) -> BroadcastView {
        BroadcastView {
            subject: self.subject_for(operation, Seq::empty()),
            payload,
            window_ms: self.window(),
        }
    }

    /// The request that starts a provider on `host`. Without a link name the
    /// provider is linked under `default`.
    pub open spec fn provider_start_on(
        self,
        host: Seq<char>,
        provider_ref: Seq<char>,
        link_name: Option<Seq<char>>,
        annotations: Option<HashMap<String, String>>,
        configuration: Option<Seq<char>>,
    ) -> RequestView {
        self.request_for(
            Operation::StartProvider,
            host,
            PayloadView::StartProvider {
                host_id: host,
                provider_ref,
                link_name: match link_name {
                    Some(name) => name,
                    None => "default"@,
                },
                annotations,
                configuration,
            },
        )
    }

    /// The lattice-wide question which hosts are there.
    pub open spec fn hosts_query(self) -> BroadcastView {
        self.broadcast_for(Operation::Hosts, PayloadView::Empty)
    }

    /// A client in legacy mode under the default topic prefix. Without a
    /// lattice id, or with an empty one, the lattice is `default`.
    pub fn new(nc: C, ns_prefix: Option<String>, timeout_ms: u64, auction_timeout_ms: u64) -> (r:
        Self)
        ensures
            r.link() == nc,
            r.topic() == None::<Seq<char>>,
            r.lattice() == lattice_or_default(text_view(ns_prefix)),
            r.timeout() == timeout_ms,
            r.window() == auction_timeout_ms,
            r.metadata() == MetadataAccess::<S>::Legacy,
    {
        Client {
            nc,
            topic_prefix: None,
            ns_prefix: keep_or_default(ns_prefix),
            timeout_ms,
            auction_timeout_ms,
            access: MetadataAccess::Legacy,
        }
    }

    /// A client in legacy mode under a topic prefix of its own.
    pub fn new_with_topic_prefix(
        nc: C,
        topic_prefix: &str,
        ns_prefix: Option<String>,
        timeout_ms: u64,
        auction_timeout_ms: u64,
    ) -> (r: Self)
        ensures
            r.link() == nc,
            r.topic() == Some(topic_prefix@),
            r.lattice() == lattice_or_default(text_view(ns_prefix)),
            r.timeout() == timeout_ms,
            r.window() == auction_timeout_ms,
            r.metadata() == MetadataAccess::<S>::Legacy,
    {
        Client {
            nc,
            topic_prefix: Some(String::from_str(topic_prefix)),
            ns_prefix: keep_or_default(ns_prefix),
            timeout_ms,
            auction_timeout_ms,
            access: MetadataAccess::Legacy,
        }
    }

    pub(crate) fn address(&self, operation: Operation, target: &str) -> (r: String)
        ensures
            r@ == self.subject_for(operation, target@),
    {
        proof {
            use_type_invariant(self);
        }
        subject(&self.topic_prefix, self.ns_prefix.as_str(), operation, target).unwrap()
    }

    pub(crate) fn request(&self, operation: Operation, target: &str, payload: Payload) -> (r:
        Request)
        ensures
            r@ == self.request_for(operation, target@, payload@),
    {
        Request { subject: self.address(operation, target), payload, timeout_ms: self.timeout_ms }
    }

    pub(crate) fn broadcast(&self, operation: Operation, payload: Payload) -> (r: Broadcast)
        ensures
            r@ == self.broadcast_for(operation, payload@),
    {
        proof {
            reveal_strlit("");
        }
        Broadcast {
            subject: self.address(operation, ""),
            payload,
            window_ms: self.auction_timeout_ms,
        }
    }

    pub(crate) fn event_subject(&self) -> (r: String)
        ensures
            r@ == control_event_of(self.lattice()),
    {
        proof {
            use_type_invariant(self);
        }
        control_event(self.ns_prefix.as_str()).unwrap()
    }

    /// The time for which the replies to a broadcast are gathered, in
    /// milliseconds.
    pub fn auction_window(&self) -> (r: u64)
        ensures
            r == self.window(),
    {
        self.auction_timeout_ms
    }

    /// The time allowed for one reply, in milliseconds.
    pub fn rpc_timeout(&self) -> (r: u64)
        ensures
            r == self.timeout(),
    {
        self.timeout_ms
    }

    /// The lattice id.
    pub fn lattice_prefix(&self) -> (r: &str)
        ensures
            r@ == self.lattice(),
    {
        self.ns_prefix.as_str()
    }

    /// Whether claims and link definitions go to the bucket.
    pub fn is_store_backed(&self) -> (r: bool)
        ensures
            r == self.store_backed(),
    {
        match &self.access {
            MetadataAccess::StoreBacked(_) => true,
            MetadataAccess::Legacy => false,
        }
    }

    /// The connection the client was built with.
    pub fn connection(&self) -> (r: &C)
        ensures
            *r == self.link(),
    {
        &self.nc
    }

    /// The handle of the metadata bucket, if the client is store-backed.
    pub fn store(&self) -> (r: Option<&S>)
        ensures
            match self.metadata() {
                MetadataAccess::StoreBacked(handle) => r == Some(&handle),
                MetadataAccess::Legacy => r is None,
            },
    {
        match &self.access {
            MetadataAccess::StoreBacked(handle) => Some(handle),
            MetadataAccess::Legacy => None,
        }
    }

    /// Asks the lattice for all responsive hosts. The answers are gathered
    /// for the whole window.
    pub fn get_hosts(&self) -> (r: Broadcast)
        ensures
            r@ == self.hosts_query(),
    {
        self.broadcast(Operation::Hosts, Payload::Empty)
    }

    /// The request that starts a provider on the host `host_id`.
    pub fn start_provider_on(
        &self,
        host_id: &str,
        provider_ref: &str,
        link_name: Option<String>,
        annotations: Option<HashMap<String, String>>,
        provider_configuration: Option<String>,
    ) -> (r: Request)
        ensures
            r@ == self.provider_start_on(
                host_id@,
                provider_ref@,
                text_view(link_name),
                annotations,
                text_view(provider_configuration),
            ),
    {
        let link_name = match link_name {
            Some(name) => name,
            None => String::from_str("default"),
        };
        self.request(
            Operation::StartProvider,
            host_id,
            Payload::StartProvider {
                host_id: String::from_str(host_id),
                provider_ref: String::from_str(provider_ref),
                link_name,
                annotations,
                configuration: provider_configuration,
            },
        )
    }

    /// Starts a provider. With a host id the request goes to that host, and
    /// its reply says whether the host accepted the command, not that the
    /// provider runs. With a host id that is empty or all white space a
    /// host has to be found first: the result holds the discovery to run and
    /// what to start afterwards.
    pub fn start_provider(
        &self,
        host_id: &str,
        provider_ref: &str,
        link_name: Option<String>,
        annotations: Option<HashMap<String, String>>,
        provider_configuration: Option<String>,
    ) -> (r: ProviderStart)
        ensures
            match r {
                ProviderStart::Direct(request) => !blank(host_id@) && request@
                    == self.provider_start_on(
                    host_id@,
                    provider_ref@,
                    text_view(link_name),
                    annotations,
                    text_view(provider_configuration),
                ),
                ProviderStart::Deferred(pending) => {
                    &&& blank(host_id@)
                    &&& pending.discovery@ == self.hosts_query()
                    &&& pending.provider_ref@ == provider_ref@
                    &&& pending.link_name == link_name
                    &&& pending.annotations == annotations
                    &&& pending.configuration == provider_configuration
                },
            },
    {
        if !is_blank(host_id) {
            ProviderStart::Direct(
                self.start_provider_on(
                    host_id,
                    provider_ref,
                    link_name,
                    annotations,
                    provider_configuration,
                ),
            )
        } else {
            ProviderStart::Deferred(
                DeferredStart {
                    discovery: self.get_hosts(),
                    provider_ref: String::from_str(provider_ref),
                    link_name,
                    annotations,
                    configuration: provider_configuration,
                },
            )
        }
    }
}

} // verus!
