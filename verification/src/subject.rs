//! Subjects: where on the bus each operation is addressed.

use vstd::prelude::*;
use vstd::string::*;

verus! {

/// The operations that have a subject of their own.
#[derive(Clone, Copy, PartialEq, Eq, Structural, Debug)]
pub enum Operation {
    ActorAuction,
    ProviderAuction,
    AdvertiseLink,
    RemoveLink,
    PublishRegistries,
    StartActor,
    ScaleActor,
    StopActor,
    StartProvider,
    StopProvider,
    UpdateActor,
    StopHost,
    LinkDefinitions,
    Claims,
    HostInventory,
    Hosts,
}

impl Operation {
    /// Whether the operation is addressed to one host, whose id is then
    /// part of the subject.
    pub open spec fn targeted(self) -> bool {
        match self {
            Operation::StartActor
            | Operation::ScaleActor
            | Operation::StopActor
            | Operation::StartProvider
            | Operation::StopProvider
            | Operation::UpdateActor
            | Operation::StopHost
            | Operation::HostInventory => true,
            _ => false,
        }
    }

    /// The part of the subject that follows the lattice id.
    pub open spec fn tail(self, target: Seq<char>) -> Seq<char> {
        match self {
            Operation::ActorAuction => ".auction.actor"@,
            Operation::ProviderAuction => ".auction.provider"@,
            Operation::AdvertiseLink => ".linkdefs.put"@,
            Operation::RemoveLink => ".linkdefs.del"@,
            Operation::PublishRegistries => ".registries.put"@,
            Operation::StartActor => ".cmd."@ + target + ".la"@,
            Operation::ScaleActor => ".cmd."@ + target + ".scale"@,
            Operation::StopActor => ".cmd."@ + target + ".sa"@,
            Operation::StartProvider => ".cmd."@ + target + ".lp"@,
            Operation::StopProvider => ".cmd."@ + target + ".sp"@,
            Operation::UpdateActor => ".cmd."@ + target + ".upd"@,
            Operation::StopHost => ".cmd."@ + target + ".stop"@,
            Operation::LinkDefinitions => ".get.links"@,
            Operation::Claims => ".get.claims"@,
            Operation::HostInventory => ".get."@ + target + ".inv"@,
            Operation::Hosts => ".ping.hosts"@,
        }
    }
}

/// The part of a control subject that comes before the operation: the topic
/// prefix, or `wasmbus.ctl` where none is configured, then the lattice id.
pub open spec fn base(topic_prefix: Option<Seq<char>>, lattice: Seq<char>) -> Seq<char> {
    (match topic_prefix {
        Some(p) => p,
        None => "wasmbus.ctl"@,
    }) + "."@ + lattice
}

/// The subject of `operation` in `lattice`; `target` counts only where the
/// operation is targeted.
pub open spec fn subject_of(
    topic_prefix: Option<Seq<char>>,
    lattice: Seq<char>,
    operation: Operation,
    target: Seq<char>,
) -> Seq<char> {
    base(topic_prefix, lattice) + operation.tail(target)
}

/// The subject on which a lattice publishes its lifecycle events.
pub open spec fn control_event_of(lattice: Seq<char>) -> Seq<char> {
    "wasmbus.evt."@ + lattice
}

/// What a configured topic prefix reads as in contracts.
pub open spec fn prefix_view(topic_prefix: Option<String>) -> Option<Seq<char>> {
    match topic_prefix {
        Some(p) => Some(p@),
        None => None,
    }
}

impl Operation {
    /// Three characters of a tail that tell the operations apart: the one
    /// after the leading dot, the last one and the one before it.
    spec fn mark(self) -> (char, char, char) {
        match self {
            Operation::ActorAuction => ('a', 'r', 'o'),
            Operation::ProviderAuction => ('a', 'r', 'e'),
            Operation::AdvertiseLink => ('l', 't', 'u'),
            Operation::RemoveLink => ('l', 'l', 'e'),
            Operation::PublishRegistries => ('r', 't', 'u'),
            Operation::StartActor => ('c', 'a', 'l'),
            Operation::ScaleActor => ('c', 'e', 'l'),
            Operation::StopActor => ('c', 'a', 's'),
            Operation::StartProvider => ('c', 'p', 'l'),
            Operation::StopProvider => ('c', 'p', 's'),
            Operation::UpdateActor => ('c', 'd', 'p'),
            Operation::StopHost => ('c', 'p', 'o'),
            Operation::LinkDefinitions => ('g', 's', 'k'),
            Operation::Claims => ('g', 's', 'm'),
            Operation::HostInventory => ('g', 'v', 'n'),
            Operation::Hosts => ('p', 's', 't'),
        }
    }

    /// How many characters stand before the target in a targeted tail.
    spec fn lead(self) -> int {
        5
    }

    /// How many characters follow the target in a targeted tail.
    spec fn trail(self) -> int {
        match self {
            Operation::ScaleActor => 6,
            Operation::StopHost => 5,
            Operation::UpdateActor | Operation::HostInventory => 4,
            _ => 3,
        }
    }
}

proof fn lemma_tail_shape(operation: Operation, target: Seq<char>)
    ensures
        operation.tail(target).len() >= 3,
        operation.tail(target)[1] == operation.mark().0,
        operation.tail(target).last() == operation.mark().1,
        operation.tail(target)[operation.tail(target).len() - 2] == operation.mark().2,
        operation.targeted() ==> operation.tail(target).len() == operation.lead() + target.len()
            + operation.trail() && operation.tail(target).subrange(
            operation.lead(),
            operation.lead() + target.len(),
        ) == target,
{
    reveal_strlit(".auction.actor");
    reveal_strlit(".auction.provider");
    reveal_strlit(".linkdefs.put");
    reveal_strlit(".linkdefs.del");
    reveal_strlit(".registries.put");
    reveal_strlit(".cmd.");
    reveal_strlit(".la");
    reveal_strlit(".scale");
    reveal_strlit(".sa");
    reveal_strlit(".lp");
    reveal_strlit(".sp");
    reveal_strlit(".upd");
    reveal_strlit(".stop");
    reveal_strlit(".get.links");
    reveal_strlit(".get.claims");
    reveal_strlit(".get.");
    reveal_strlit(".inv");
    reveal_strlit(".ping.hosts");
    if operation.targeted() {
        assert(operation.tail(target).subrange(
            operation.lead(),
            operation.lead() + target.len(),
        ) =~= target);
    }
}

/// Within one lattice and under one topic prefix, two operations share a
/// subject only if they are the same operation and, where it is targeted,
/// address the same host.
pub proof fn subject_is_injective(
    topic_prefix: Option<Seq<char>>,
    lattice: Seq<char>,
    a: Operation,
    target_a: Seq<char>,
    b: Operation,
    target_b: Seq<char>,
)
    requires
        subject_of(topic_prefix, lattice, a, target_a) == subject_of(
            topic_prefix,
            lattice,
            b,
            target_b,
        ),
    ensures
        a == b,
        a.targeted() ==> target_a == target_b,
{
    let stem = base(topic_prefix, lattice);
    let sa = subject_of(topic_prefix, lattice, a, target_a);
    let sb = subject_of(topic_prefix, lattice, b, target_b);
    let ta = a.tail(target_a);
    let tb = b.tail(target_b);
    assert(sa.subrange(stem.len() as int, sa.len() as int) =~= ta);
    assert(sb.subrange(stem.len() as int, sb.len() as int) =~= tb);
    assert(ta == tb);
    lemma_tail_shape(a, target_a);
    lemma_tail_shape(b, target_b);
    assert(a.mark() == b.mark());
}

fn push_tail(s: &mut String, operation: Operation, target: &str)
    ensures
        final(s)@ == old(s)@ + operation.tail(target@),
{
    match operation {
        Operation::ActorAuction => s.append(".auction.actor"),
        Operation::ProviderAuction => s.append(".auction.provider"),
        Operation::AdvertiseLink => s.append(".linkdefs.put"),
        Operation::RemoveLink => s.append(".linkdefs.del"),
        Operation::PublishRegistries => s.append(".registries.put"),
        Operation::StartActor => {
            s.append(".cmd.");
            s.append(target);
            s.append(".la");
        },
        Operation::ScaleActor => {
            s.append(".cmd.");
            s.append(target);
            s.append(".scale");
        },
        Operation::StopActor => {
            s.append(".cmd.");
            s.append(target);
            s.append(".sa");
        },
        Operation::StartProvider => {
            s.append(".cmd.");
            s.append(target);
            s.append(".lp");
        },
        Operation::StopProvider => {
            s.append(".cmd.");
            s.append(target);
            s.append(".sp");
        },
        Operation::UpdateActor => {
            s.append(".cmd.");
            s.append(target);
            s.append(".upd");
        },
        Operation::StopHost => {
            s.append(".cmd.");
            s.append(target);
            s.append(".stop");
        },
        Operation::LinkDefinitions => s.append(".get.links"),
        Operation::Claims => s.append(".get.claims"),
        Operation::HostInventory => {
            s.append(".get.");
            s.append(target);
            s.append(".inv");
        },
        Operation::Hosts => s.append(".ping.hosts"),
    }
}

/// Builds the subject of `operation`. A lattice id must not be empty: for an
/// empty one there is no subject.
pub fn subject(
    topic_prefix: &Option<String>,
    lattice: &str,
    operation: Operation,
    target: &str,
) -> (r: Option<String>)
    ensures
        lattice@.len() == 0 ==> r is None,
        lattice@.len() > 0 ==> r is Some && r->0@ == subject_of(
            prefix_view(*topic_prefix),
            lattice@,
            operation,
            target@,
        ),
{
    if lattice.is_empty() {
        return None;
    }
    let mut s = match topic_prefix {
        Some(p) => p.clone(),
        None => String::from_str("wasmbus.ctl"),
    };
    s.append(".");
    s.append(lattice);
    push_tail(&mut s, operation, target);
    Some(s)
}

/// Builds the subject of a lattice's event stream, with the same rule for
/// an empty lattice id.
pub fn control_event(lattice: &str) -> (r: Option<String>)
    ensures
        lattice@.len() == 0 ==> r is None,
        lattice@.len() > 0 ==> r is Some && r->0@ == control_event_of(lattice@),
{
    if lattice.is_empty() {
        return None;
    }
    let mut s = String::from_str("wasmbus.evt.");
    s.append(lattice);
    Some(s)
}

} // verus!
