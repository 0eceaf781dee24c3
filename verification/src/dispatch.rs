//! Commands without a target: find a host, answer at once, start in the
//! background.

use crate::client::{Client, DeferredStart};
use crate::types::{text_view, AckView, CtlOperationAck, Host, Request};
use vstd::prelude::*;
use vstd::string::*;

verus! {

/// What follows from a discovery: the acknowledgement that the caller gets
/// at once, and the request to run in the background, if a host was found.
/// Nobody waits for that request, and its outcome reaches the caller only
/// through logs and events.
#[derive(Clone, Debug, PartialEq, Eq)]
pub struct Dispatch {
    pub ack: CtlOperationAck,
    pub background: Option<Request>,
}

/// The host that a deferred command goes to: the first that answered.
pub open spec fn chosen_host(discovered: Result<Vec<Host>, String>) -> Option<Host> {
    match discovered {
        Ok(hosts) => if hosts@.len() > 0 {
            Some(hosts@[0])
        } else {
            None
        },
        Err(_) => None,
    }
}

/// The acknowledgement of a deferred command. It always accepts: the
/// command was taken in, which says nothing of whether a host was found.
/// The error text says when none was.
pub open spec fn deferred_ack(discovered: Result<Vec<Host>, String>) -> AckView {
    AckView {
        accepted: true,
        error: match discovered {
            Err(reason) => "failed to query hosts for no-host provider start: "@ + reason@,
            Ok(hosts) => if hosts@.len() == 0 {
                "No hosts detected in in no-host provider start."@
            } else {
                Seq::empty()
            },
        },
    }
}

/// Where no host is found, be it that none answered or that the discovery
/// failed, the acknowledgement still accepts and carries a reason that is
/// not empty. Where one is found, the acknowledgement carries no reason.
pub proof fn acknowledged_whatever_was_found(discovered: Result<Vec<Host>, String>)
    ensures
        deferred_ack(discovered).accepted,
        chosen_host(discovered) is None <==> deferred_ack(discovered).error.len() > 0,
{
    reveal_strlit("failed to query hosts for no-host provider start: ");
    reveal_strlit("No hosts detected in in no-host provider start.");
}

impl<C, S> Client<C, S> {
    /// Decides a deferred provider start once the discovery has ended.
    /// `discovered` holds the hosts that answered, in the order of their
    /// answers, or the reason why the discovery failed. The acknowledgement
    /// depends on the discovery alone: it is ready before the background
    /// request is sent, and nothing of that request's exchange enters it.
    pub fn dispatch_deferred(&self, pending: DeferredStart, discovered: Result<Vec<Host>, String>) -> (r:
        Dispatch)
        ensures
            r.ack@ == deferred_ack(discovered),
            match chosen_host(discovered) {
                Some(host) => r.background is Some && r.background->0@ == self.provider_start_on(
                    host.id@,
                    pending.provider_ref@,
                    text_view(pending.link_name),
                    pending.annotations,
                    text_view(pending.configuration),
                ),
                None => r.background is None,
            },
    {
        let DeferredStart { discovery: _, provider_ref, link_name, annotations, configuration } =
            pending;
        match discovered {
            Err(reason) => {
                let mut error = String::from_str(
                    "failed to query hosts for no-host provider start: ",
                );
                error.append(reason.as_str());
                Dispatch { ack: CtlOperationAck { accepted: true, error }, background: None }
            },
            Ok(hosts) => {
                if hosts.len() == 0 {
                    Dispatch {
                        ack: CtlOperationAck {
                            accepted: true,
                            error: String::from_str(
                                "No hosts detected in in no-host provider start.",
                            ),
                        },
                        background: None,
                    }
                } else {
                    let request = self.start_provider_on(
                        hosts[0].id.as_str(),
                        provider_ref.as_str(),
                        link_name,
                        annotations,
                        configuration,
                    );
                    Dispatch {
                        ack: CtlOperationAck { accepted: true, error: String::new() },
                        background: Some(request),
                    }
                }
            },
        }
    }
}

} // verus!
