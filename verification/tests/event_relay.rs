use cloudevents::AttributesReader;
use wasmcloud_control_interface::client::{Client, ClientBuilder};
use wasmcloud_control_interface::relay::{
    after_decode, Relay, RelayAction, RelayState, EVENT_QUEUE_CAPACITY,
};

fn event(id: &str) -> Vec<u8> {
    format!(
        "{{\"specversion\":\"1.0\",\"id\":\"{}\",\"type\":\"com.wasmcloud.lattice.actor_started\",\"source\":\"NHOST\",\"data\":{{\"public_key\":\"MACTOR\"}},\"datacontenttype\":\"application/json\"}}",
        id
    )
    .into_bytes()
}

fn forwarded_id(action: RelayAction<cloudevents::Event>) -> String {
    match action {
        RelayAction::Forward(e) => e.id().to_string(),
        other => panic!("not forwarded: {:?}", other),
    }
}

#[test]
fn an_event_is_decoded_and_forwarded() {
    let mut relay = Relay::new();
    assert_eq!(relay.current(), RelayState::Receiving);
    match relay.on_message(&event("e-1")) {
        RelayAction::Forward(e) => {
            assert_eq!(e.id(), "e-1");
            assert_eq!(e.ty(), "com.wasmcloud.lattice.actor_started");
            assert_eq!(e.source().to_string(), "NHOST");
        }
        other => panic!("not forwarded: {:?}", other),
    }
    assert_eq!(relay.current(), RelayState::Forwarding);
    assert_eq!(relay.on_forwarded(true), RelayAction::Receive);
    assert_eq!(relay.current(), RelayState::Receiving);
}

#[test]
fn an_event_of_the_older_format_is_forwarded_too() {
    let mut relay = Relay::new();
    let bytes = b"{\"specversion\":\"0.3\",\"id\":\"old\",\"type\":\"t\",\"source\":\"s\"}";
    assert_eq!(forwarded_id(relay.on_message(bytes)), "old");
}

#[test]
fn what_is_no_event_is_passed_over() {
    let mut relay = Relay::new();
    for bytes in [
        &b""[..],
        &b"not json"[..],
        &b"{}"[..],
        &b"[1,2,3]"[..],
        &b"{\"specversion\":\"1.0\",\"id\":\"1\",\"type\":\"t\"}"[..],
        &b"{\"specversion\":\"2.0\",\"id\":\"1\",\"type\":\"t\",\"source\":\"s\"}"[..],
        &b"{\"accepted\":true,\"error\":\"\"}"[..],
    ] {
        assert_eq!(relay.on_message(bytes), RelayAction::Skip);
        assert_eq!(relay.current(), RelayState::Receiving);
    }
    assert_eq!(forwarded_id(relay.on_message(&event("after"))), "after");
}

#[test]
fn a_pending_forward_blocks_the_relay() {
    let mut relay = Relay::new();
    assert_eq!(forwarded_id(relay.on_message(&event("1"))), "1");
    assert_eq!(relay.on_message(&event("2")), RelayAction::Blocked);
    assert_eq!(relay.on_message(b"junk"), RelayAction::Blocked);
    assert_eq!(relay.on_bus_closed(), RelayAction::Blocked);
    assert_eq!(relay.current(), RelayState::Forwarding);
    assert_eq!(relay.on_forwarded(true), RelayAction::Receive);
    assert_eq!(forwarded_id(relay.on_message(&event("2"))), "2");
}

#[test]
fn a_burst_is_forwarded_whole_and_in_order() {
    let mut relay = Relay::new();
    let mut ids = Vec::new();
    for i in 0..EVENT_QUEUE_CAPACITY {
        let id = format!("e-{}", i);
        if i % 7 == 3 {
            assert_eq!(relay.on_message(b"{\"broken\":"), RelayAction::Skip);
        }
        ids.push(forwarded_id(relay.on_message(&event(&id))));
        assert_eq!(relay.on_message(&event("too early")), RelayAction::Blocked);
        assert_eq!(relay.on_forwarded(true), RelayAction::Receive);
    }
    assert_eq!(ids.len(), 5000);
    for (i, id) in ids.iter().enumerate() {
        assert_eq!(*id, format!("e-{}", i));
    }
}

#[test]
fn a_closed_queue_ends_the_relay() {
    let mut relay = Relay::new();
    assert_eq!(forwarded_id(relay.on_message(&event("1"))), "1");
    assert_eq!(relay.on_forwarded(false), RelayAction::Unsubscribe);
    assert_eq!(relay.current(), RelayState::Stopped);
    assert_eq!(relay.on_message(&event("2")), RelayAction::Ignore);
    assert_eq!(relay.on_message(b"junk"), RelayAction::Ignore);
    assert_eq!(relay.on_forwarded(true), RelayAction::Ignore);
    assert_eq!(relay.on_forwarded(false), RelayAction::Ignore);
    assert_eq!(relay.on_bus_closed(), RelayAction::Ignore);
    assert_eq!(relay.current(), RelayState::Stopped);
}

#[test]
fn the_end_of_the_subscription_ends_the_relay() {
    let mut relay = Relay::new();
    assert_eq!(relay.on_bus_closed(), RelayAction::Halt);
    assert_eq!(relay.current(), RelayState::Stopped);
    assert_eq!(relay.on_message(&event("1")), RelayAction::Ignore);
}

#[test]
fn the_end_of_a_forward_that_was_not_begun_changes_nothing() {
    let mut relay = Relay::new();
    assert_eq!(relay.on_forwarded(true), RelayAction::Receive);
    assert_eq!(relay.on_forwarded(false), RelayAction::Receive);
    assert_eq!(relay.current(), RelayState::Receiving);
}

#[test]
fn the_decision_after_decoding_is_the_same_for_any_event_type() {
    assert_eq!(after_decode(Some(5u8)), (RelayState::Forwarding, RelayAction::Forward(5u8)));
    assert_eq!(after_decode(None::<u8>), (RelayState::Receiving, RelayAction::Skip));
}

#[test]
fn a_feed_is_described_by_its_subject_and_capacity() {
    let c: Client<u8, u8> =
        ClientBuilder::new(0u8).topic_prefix("acme").lattice_prefix("prod").build(None).unwrap();
    let feed = c.events_receiver();
    assert_eq!(feed.subject, "wasmbus.evt.prod");
    assert_eq!(feed.capacity, 5000);
    assert_eq!(feed.relay.current(), RelayState::Receiving);
}

#[test]
fn each_feed_has_a_relay_of_its_own() {
    let c: Client<u8, u8> = ClientBuilder::new(0u8).build(None).unwrap();
    let mut first = c.events_receiver();
    let second = c.events_receiver();
    first.relay.on_bus_closed();
    assert_eq!(first.relay.current(), RelayState::Stopped);
    assert_eq!(second.relay.current(), RelayState::Receiving);
}
