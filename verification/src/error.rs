//! The ways in which a call on the client can fail.

use crate::subject::Operation;
use vstd::prelude::*;
use vstd::string::*;

verus! {

/// A failure of one call. A reply that says `accepted: false` is not among
/// them: it is an answer, and is returned as one.
#[derive(Clone, Debug, PartialEq, Eq)]
pub enum ClientError {
    /// No reply arrived within the timeout.
    TimedOut { operation: Operation },
    /// The connection could not send, subscribe or receive.
    Transport { operation: Operation, detail: String },
    /// A reply arrived and was not what the operation expects.
    Decode { detail: String },
    /// The body of a request could not be encoded.
    Encode { detail: String },
    /// The metadata store could not be read.
    Lookup { detail: String },
    /// A client was to be built without a connection.
    NoConnection,
}

impl Operation {
    /// The words that introduce the reason why no reply was received;
    /// `sending` tells a failure of the connection from a timeout.
    pub open spec fn complaint(self, sending: bool) -> Seq<char> {
        match self {
            Operation::HostInventory => "Did not receive host inventory from target host: "@,
            Operation::Claims => "Did not receive claims from lattice: "@,
            Operation::StartActor => "Did not receive start actor acknowledgement: "@,
            Operation::ScaleActor => "Did not receive scale actor acknowledgement: "@,
            Operation::AdvertiseLink => "Did not receive advertise link acknowledgement: "@,
            Operation::RemoveLink => "Did not receive remove link acknowledgement: "@,
            Operation::LinkDefinitions => "Did not receive a response to links query: "@,
            Operation::UpdateActor => "Did not receive update actor acknowledgement: "@,
            Operation::StopProvider => "Did not receive stop provider acknowledgement: "@,
            Operation::StopActor => "Did not receive stop actor acknowledgement: "@,
            Operation::StopHost => "Did not receive stop host acknowledgement: "@,
            Operation::StartProvider => if sending {
                "Error sending or receiving message: "@
            } else {
                "Did not receive start provider acknowledgement: "@
            },
            Operation::PublishRegistries => "Failed to push registry credential map: "@,
            Operation::Hosts | Operation::ActorAuction | Operation::ProviderAuction => Seq::empty(),
        }
    }

    /// How the operation words a timeout.
    pub open spec fn lapse(self) -> Seq<char> {
        match self {
            Operation::StartProvider => "deadline has elapsed"@,
            _ => "timed out"@,
        }
    }

    fn begin_complaint(self, sending: bool) -> (r: String)
        ensures
            r@ == self.complaint(sending),
    {
        match self {
            Operation::HostInventory => String::from_str(
                "Did not receive host inventory from target host: ",
            ),
            Operation::Claims => String::from_str("Did not receive claims from lattice: "),
            Operation::StartActor => String::from_str(
                "Did not receive start actor acknowledgement: ",
            ),
            Operation::ScaleActor => String::from_str(
                "Did not receive scale actor acknowledgement: ",
            ),
            Operation::AdvertiseLink => String::from_str(
                "Did not receive advertise link acknowledgement: ",
            ),
            Operation::RemoveLink => String::from_str(
                "Did not receive remove link acknowledgement: ",
            ),
            Operation::LinkDefinitions => String::from_str(
                "Did not receive a response to links query: ",
            ),
            Operation::UpdateActor => String::from_str(
                "Did not receive update actor acknowledgement: ",
            ),
            Operation::StopProvider => String::from_str(
                "Did not receive stop provider acknowledgement: ",
            ),
            Operation::StopActor => String::from_str("Did not receive stop actor acknowledgement: "),
            Operation::StopHost => String::from_str("Did not receive stop host acknowledgement: "),
            Operation::StartProvider => if sending {
                String::from_str("Error sending or receiving message: ")
            } else {
                String::from_str("Did not receive start provider acknowledgement: ")
            },
            Operation::PublishRegistries => String::from_str(
                "Failed to push registry credential map: ",
            ),
            Operation::Hosts | Operation::ActorAuction | Operation::ProviderAuction => String::new(),
        }
    }
}

impl ClientError {
    /// The text of the error.
    pub open spec fn message_text(self) -> Seq<char> {
        match self {
            ClientError::TimedOut { operation } => operation.complaint(false) + operation.lapse(),
            ClientError::Transport { operation, detail } => operation.complaint(true) + detail@,
            ClientError::Decode { detail } => "JSON deserialization failure: "@ + detail@,
            ClientError::Encode { detail } => "JSON serialization failure: "@ + detail@,
            ClientError::Lookup { detail } => detail@,
            ClientError::NoConnection =>
                "Cannot create a control interface client without a NATS client"@,
        }
    }

    /// Renders the error as text.
    pub fn message(&self) -> (r: String)
        ensures
            r@ == self.message_text(),
    {
        match self {
            ClientError::TimedOut { operation } => {
                let mut s = operation.begin_complaint(false);
                match operation {
                    Operation::StartProvider => s.append("deadline has elapsed"),
                    _ => s.append("timed out"),
                }
                s
            },
            ClientError::Transport { operation, detail } => {
                let mut s = operation.begin_complaint(true);
                s.append(detail.as_str());
                s
            },
            ClientError::Decode { detail } => {
                let mut s = String::from_str("JSON deserialization failure: ");
                s.append(detail.as_str());
                s
            },
            ClientError::Encode { detail } => {
                let mut s = String::from_str("JSON serialization failure: ");
                s.append(detail.as_str());
                s
            },
            ClientError::Lookup { detail } => detail.clone(),
            ClientError::NoConnection => String::from_str(
                "Cannot create a control interface client without a NATS client",
            ),
        }
    }
}

} // verus!
