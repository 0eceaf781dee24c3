//! Claims and link definitions: in the lattice's bucket where the client
//! found one when it was built, over the bus where it did not.

use crate::client::Client;
use crate::error::ClientError;
use crate::keys::{link_key, link_key_of};
use crate::subject::Operation;
use crate::types::{
    AckView, CtlOperationAck, LinkDefinition, LinkView, Payload, PayloadView, Request, RequestView,
};
use std::collections::HashMap;
use vstd::prelude::*;
use vstd::string::*;

verus! {

/// One operation on the metadata bucket.
#[derive(Clone, Debug, PartialEq, Eq)]
pub enum StoreOp {
    /// Read every claim: the entries whose keys begin with `CLAIMS_`.
    ReadClaims,
    /// Read every link definition: the entries whose keys begin with
    /// `LINKDEF_`.
    ReadLinks,
    /// Write one link definition under its key.
    PutLink { key: String, link: LinkDefinition },
    /// Delete the entry with this key.
    DeleteLink { key: String },
}

/// An operation on the bucket as the contracts see it.
pub enum StoreOpView {
    ReadClaims,
    ReadLinks,
    PutLink { key: Seq<char>, link: LinkView },
    DeleteLink { key: Seq<char> },
}

impl StoreOpView {
    /// The key that the operation touches, or that with which the keys it
    /// touches begin.
    pub open spec fn scope(self) -> Seq<char> {
        match self {
            StoreOpView::ReadClaims => "CLAIMS_"@,
            StoreOpView::ReadLinks => "LINKDEF_"@,
            StoreOpView::PutLink { key, .. } => key,
            StoreOpView::DeleteLink { key } => key,
        }
    }
}

impl View for StoreOp {
    type V = StoreOpView;

    open spec fn view(&self) -> StoreOpView {
        match *self {
            StoreOp::ReadClaims => StoreOpView::ReadClaims,
            StoreOp::ReadLinks => StoreOpView::ReadLinks,
            StoreOp::PutLink { key, link } => StoreOpView::PutLink { key: key@, link: link@ },
            StoreOp::DeleteLink { key } => StoreOpView::DeleteLink { key: key@ },
        }
    }
}

impl StoreOp {
    /// The key that the operation touches, or that with which the keys it
    /// touches begin.
    pub fn scope(&self) -> (r: String)
        ensures
            r@ == self@.scope(),
    {
        match self {
            StoreOp::ReadClaims => String::from_str("CLAIMS_"),
            StoreOp::ReadLinks => String::from_str("LINKDEF_"),
            StoreOp::PutLink { key, .. } => key.clone(),
            StoreOp::DeleteLink { key } => key.clone(),
        }
    }
}

/// How one metadata operation is carried out.
#[derive(Clone, Debug, PartialEq, Eq)]
pub enum MetadataPlan {
    /// In the bucket.
    Store(StoreOp),
    /// By a request over the bus, answered by whichever host is first.
    Bus(Request),
}

/// A metadata operation as the contracts see it.
pub enum MetadataPlanView {
    Store(StoreOpView),
    Bus(RequestView),
}

impl View for MetadataPlan {
    type V = MetadataPlanView;

    open spec fn view(&self) -> MetadataPlanView {
        match *self {
            MetadataPlan::Store(op) => MetadataPlanView::Store(op@),
            MetadataPlan::Bus(request) => MetadataPlanView::Bus(request@),
        }
    }
}

/// The acknowledgement of a write to the bucket or a deletion from it. A
/// failure of the bucket rejects the operation with the bucket's reason; it
/// does not fail the call, and the bus is not tried in its place.
pub open spec fn store_ack(outcome: Result<(), String>) -> AckView {
    match outcome {
        Ok(_) => AckView { accepted: true, error: Seq::empty() },
        Err(reason) => AckView { accepted: false, error: reason@ },
    }
}

/// Acknowledges a write to the bucket or a deletion from it.
pub fn acknowledge_store(outcome: Result<(), String>) -> (r: CtlOperationAck)
    ensures
        r@ == store_ack(outcome),
{
    match outcome {
        Ok(_) => CtlOperationAck { accepted: true, error: String::new() },
        Err(reason) => CtlOperationAck { accepted: false, error: reason },
    }
}

/// The result of a read from the bucket: what was read, or the failure of
/// the lookup. The bus is not tried in its place.
pub fn conclude_store_read<T>(outcome: Result<T, String>) -> (r: Result<T, ClientError>)
    ensures
        r == match outcome {
            Ok(value) => Ok::<T, ClientError>(value),
            Err(detail) => Err(ClientError::Lookup { detail }),
        },
{
    match outcome {
        Ok(value) => Ok(value),
        Err(detail) => Err(ClientError::Lookup { detail }),
    }
}

impl<C, S> Client<C, S> {
    /// How this client carries out a metadata operation that is `in_store`
    /// in the bucket and `on_bus` over the bus.
    pub open spec fn metadata_plan(
        self,
        in_store: StoreOpView,
        operation: Operation,
        on_bus: PayloadView,
    ) -> MetadataPlanView {
        if self.store_backed() {
            MetadataPlanView::Store(in_store)
        } else {
            MetadataPlanView::Bus(self.request_for(operation, Seq::empty(), on_bus))
        }
    }

    /// How this client reads the claims.
    pub open spec fn claims_plan(self) -> MetadataPlanView {
        self.metadata_plan(StoreOpView::ReadClaims, Operation::Claims, PayloadView::Empty)
    }

    /// How this client reads the link definitions.
    pub open spec fn links_plan(self) -> MetadataPlanView {
        self.metadata_plan(StoreOpView::ReadLinks, Operation::LinkDefinitions, PayloadView::Empty)
    }

    /// How this client writes a link definition.
    pub open spec fn advertise_plan(self, link: LinkView) -> MetadataPlanView {
        self.metadata_plan(
            StoreOpView::PutLink {
                key: link_key_of(link.actor_id, link.contract_id, link.link_name),
                link,
            },
            Operation::AdvertiseLink,
            PayloadView::Link(link),
        )
    }

    /// How this client removes the link definition with the given key.
    pub open spec fn remove_plan(
        self,
        actor_id: Seq<char>,
        contract_id: Seq<char>,
        link_name: Seq<char>,
    ) -> MetadataPlanView {
        self.metadata_plan(
            StoreOpView::DeleteLink { key: link_key_of(actor_id, contract_id, link_name) },
            Operation::RemoveLink,
            PayloadView::LinkRemoval { actor_id, contract_id, link_name },
        )
    }

    /// Reads all claims known in the lattice: from the bucket, or from the
    /// first host that answers.
    pub fn get_claims(&self) -> (r: MetadataPlan)
        ensures
            r@ == self.claims_plan(),
    {
        proof {
            reveal_strlit("");
        }
        match self.store() {
            Some(_) => MetadataPlan::Store(StoreOp::ReadClaims),
            None => MetadataPlan::Bus(self.request(Operation::Claims, "", Payload::Empty)),
        }
    }

    /// Reads all link definitions: from the bucket, or from the first host
    /// that answers.
    pub fn query_links(&self) -> (r: MetadataPlan)
        ensures
            r@ == self.links_plan(),
    {
        proof {
            reveal_strlit("");
        }
        match self.store() {
            Some(_) => MetadataPlan::Store(StoreOp::ReadLinks),
            None => MetadataPlan::Bus(self.request(Operation::LinkDefinitions, "", Payload::Empty)),
        }
    }

    /// Puts a link definition: into the bucket, whose watchers learn of it
    /// from there, or on the bus for the hosts to apply.
    pub fn advertise_link(
        &self,
        actor_id: &str,
        provider_id: &str,
        contract_id: &str,
        link_name: &str,
        values: HashMap<String, String>,
    ) -> (r: MetadataPlan)
        ensures
            r@ == self.advertise_plan(
                LinkView {
                    actor_id: actor_id@,
                    provider_id: provider_id@,
                    link_name: link_name@,
                    contract_id: contract_id@,
                    values,
                },
            ),
    {
        proof {
            reveal_strlit("");
        }
        let link = LinkDefinition {
            actor_id: String::from_str(actor_id),
            provider_id: String::from_str(provider_id),
            link_name: String::from_str(link_name),
            contract_id: String::from_str(contract_id),
            values,
        };
        match self.store() {
            Some(_) => MetadataPlan::Store(
                StoreOp::PutLink { key: link_key(actor_id, contract_id, link_name), link },
            ),
            None => MetadataPlan::Bus(
                self.request(Operation::AdvertiseLink, "", Payload::Link(link)),
            ),
        }
    }

    /// Removes the link definition of an actor under a contract and a link
    /// name: from the bucket, or by a request over the bus.
    pub fn remove_link(&self, actor_id: &str, contract_id: &str, link_name: &str) -> (r:
        MetadataPlan)
        ensures
            r@ == self.remove_plan(actor_id@, contract_id@, link_name@),
    {
        proof {
            reveal_strlit("");
        }
        match self.store() {
            Some(_) => MetadataPlan::Store(
                StoreOp::DeleteLink { key: link_key(actor_id, contract_id, link_name) },
            ),
            None => MetadataPlan::Bus(
                self.request(
                    Operation::RemoveLink,
                    "",
                    Payload::LinkRemoval {
                        actor_id: String::from_str(actor_id),
                        contract_id: String::from_str(contract_id),
                        link_name: String::from_str(link_name),
                    },
                ),
            ),
        }
    }
}

/// A client takes one path for all its metadata operations, the one it was
/// built with: either every read and write of claims and link definitions
/// goes to the bucket, or every one goes over the bus.
pub proof fn metadata_mode_is_fixed<C, S>(
    client: Client<C, S>,
    link: LinkView,
    actor_id: Seq<char>,
    contract_id: Seq<char>,
    link_name: Seq<char>,
)
    ensures
        client.claims_plan() is Store <==> client.store_backed(),
        client.links_plan() is Store <==> client.store_backed(),
        client.advertise_plan(link) is Store <==> client.store_backed(),
        client.remove_plan(actor_id, contract_id, link_name) is Store <==> client.store_backed(),
{
}

} // verus!
