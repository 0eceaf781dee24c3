use std::collections::HashMap;
use wasmcloud_control_interface::client::{Client, ClientBuilder};
use wasmcloud_control_interface::collect::GatherAction;
use wasmcloud_control_interface::types::{
    Broadcast, Payload, Publication, RegistryCredential, Request,
};

fn client() -> Client<u8, u8> {
    ClientBuilder::new(0u8).rpc_timeout(1000).auction_timeout(500).build(None).unwrap()
}

fn labels() -> HashMap<String, String> {
    let mut m = HashMap::new();
    m.insert("arch".to_string(), "x86_64".to_string());
    m
}

#[test]
fn an_actor_auction_is_a_broadcast() {
    assert_eq!(
        client().perform_actor_auction("wasmcloud.azurecr.io/echo:0.3.4", labels()),
        Broadcast {
            subject: "wasmbus.ctl.default.auction.actor".to_string(),
            payload: Payload::ActorAuction {
                actor_ref: "wasmcloud.azurecr.io/echo:0.3.4".to_string(),
                constraints: labels(),
            },
            window_ms: 500,
        }
    );
}

#[test]
fn a_provider_auction_is_a_broadcast() {
    assert_eq!(
        client().perform_provider_auction("ref", "default", labels()),
        Broadcast {
            subject: "wasmbus.ctl.default.auction.provider".to_string(),
            payload: Payload::ProviderAuction {
                provider_ref: "ref".to_string(),
                link_name: "default".to_string(),
                constraints: labels(),
            },
            window_ms: 500,
        }
    );
}

#[test]
fn an_auction_is_gathered_for_the_clients_window() {
    let c = client();
    let mut g = c.publish_and_wait::<u32>("_INBOX.q".to_string());
    assert_eq!(g.on_reply("_INBOX.q", 50, Some(1)), GatherAction::Wait { remaining_ms: 450 });
    assert_eq!(g.on_reply("_INBOX.q", 200, Some(2)), GatherAction::Wait { remaining_ms: 300 });
    assert_eq!(g.on_reply("_INBOX.q", 600, Some(3)), GatherAction::Done);
    assert_eq!(g.finish().unwrap(), vec![1, 2]);
}

#[test]
fn start_actor_goes_to_its_host() {
    assert_eq!(
        client().start_actor("N1", "ref", 3, Some(labels())),
        Request {
            subject: "wasmbus.ctl.default.cmd.N1.la".to_string(),
            payload: Payload::StartActor {
                host_id: "N1".to_string(),
                actor_ref: "ref".to_string(),
                count: 3,
                annotations: Some(labels()),
            },
            timeout_ms: 1000,
        }
    );
}

#[test]
fn scale_actor_goes_to_its_host() {
    assert_eq!(
        client().scale_actor("N1", "ref", "MACTOR", 65535, None),
        Request {
            subject: "wasmbus.ctl.default.cmd.N1.scale".to_string(),
            payload: Payload::ScaleActor {
                host_id: "N1".to_string(),
                actor_ref: "ref".to_string(),
                actor_id: "MACTOR".to_string(),
                count: 65535,
                annotations: None,
            },
            timeout_ms: 1000,
        }
    );
}

#[test]
fn stop_actor_goes_to_its_host() {
    assert_eq!(
        client().stop_actor("N1", "ref", 0, None),
        Request {
            subject: "wasmbus.ctl.default.cmd.N1.sa".to_string(),
            payload: Payload::StopActor {
                host_id: "N1".to_string(),
                actor_ref: "ref".to_string(),
                count: 0,
                annotations: None,
            },
            timeout_ms: 1000,
        }
    );
}

#[test]
fn update_actor_goes_to_its_host() {
    assert_eq!(
        client().update_actor("N1", "MACTOR", "ref:2", Some(labels())),
        Request {
            subject: "wasmbus.ctl.default.cmd.N1.upd".to_string(),
            payload: Payload::UpdateActor {
                host_id: "N1".to_string(),
                actor_id: "MACTOR".to_string(),
                new_actor_ref: "ref:2".to_string(),
                annotations: Some(labels()),
            },
            timeout_ms: 1000,
        }
    );
}

#[test]
fn stop_provider_goes_to_its_host() {
    assert_eq!(
        client().stop_provider("N1", "ref", "default", "wasmcloud:httpserver", None),
        Request {
            subject: "wasmbus.ctl.default.cmd.N1.sp".to_string(),
            payload: Payload::StopProvider {
                host_id: "N1".to_string(),
                provider_ref: "ref".to_string(),
                link_name: "default".to_string(),
                contract_id: "wasmcloud:httpserver".to_string(),
                annotations: None,
            },
            timeout_ms: 1000,
        }
    );
}

#[test]
fn stop_host_goes_to_its_host() {
    assert_eq!(
        client().stop_host("N1", Some(3000)),
        Request {
            subject: "wasmbus.ctl.default.cmd.N1.stop".to_string(),
            payload: Payload::StopHost { host_id: "N1".to_string(), timeout: Some(3000) },
            timeout_ms: 1000,
        }
    );
    assert_eq!(
        client().stop_host("N1", None).payload,
        Payload::StopHost { host_id: "N1".to_string(), timeout: None }
    );
}

#[test]
fn an_inventory_is_asked_of_one_host() {
    assert_eq!(
        client().get_host_inventory("N1"),
        Request {
            subject: "wasmbus.ctl.default.get.N1.inv".to_string(),
            payload: Payload::Empty,
            timeout_ms: 1000,
        }
    );
}

#[test]
fn registries_are_published_without_a_reply() {
    let mut registries = HashMap::new();
    registries.insert(
        "ghcr.io".to_string(),
        RegistryCredential {
            password: Some("SECRET-REDACTED".to_string()),
            token: None,
            username: Some("robot".to_string()),
            registry_type: "oci".to_string(),
        },
    );
    assert_eq!(
        client().put_registries(registries.clone()),
        Publication {
            subject: "wasmbus.ctl.default.registries.put".to_string(),
            payload: Payload::Registries(registries),
        }
    );
}
