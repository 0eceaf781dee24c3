use std::collections::HashMap;
use wasmcloud_control_interface::client::{Client, ClientBuilder, DeferredStart, ProviderStart};
use wasmcloud_control_interface::types::{
    Broadcast, CtlOperationAck, Host, Payload, Request,
};

fn client() -> Client<u8, u8> {
    ClientBuilder::new(0u8).rpc_timeout(1500).auction_timeout(300).build(None).unwrap()
}

fn annotations() -> Option<HashMap<String, String>> {
    let mut m = HashMap::new();
    m.insert("team".to_string(), "blue".to_string());
    Some(m)
}

fn pending(link_name: Option<&str>) -> DeferredStart {
    match client().start_provider(
        "",
        "wasmcloud.azurecr.io/httpserver:0.17.0",
        link_name.map(|s| s.to_string()),
        annotations(),
        Some("cfg".to_string()),
    ) {
        ProviderStart::Deferred(d) => d,
        ProviderStart::Direct(_) => panic!("not deferred"),
    }
}

fn host(id: &str) -> Host {
    Host { id: id.to_string() }
}

#[test]
fn a_named_host_is_asked_directly() {
    let r = client().start_provider(
        "NHOST",
        "wasmcloud.azurecr.io/httpserver:0.17.0",
        Some("web".to_string()),
        annotations(),
        None,
    );
    assert_eq!(
        r,
        ProviderStart::Direct(Request {
            subject: "wasmbus.ctl.default.cmd.NHOST.lp".to_string(),
            payload: Payload::StartProvider {
                host_id: "NHOST".to_string(),
                provider_ref: "wasmcloud.azurecr.io/httpserver:0.17.0".to_string(),
                link_name: "web".to_string(),
                annotations: annotations(),
                configuration: None,
            },
            timeout_ms: 1500,
        })
    );
}

#[test]
fn without_a_link_name_the_link_is_default() {
    let r = client().start_provider_on("NHOST", "ref", None, None, Some("c".to_string()));
    assert_eq!(
        r.payload,
        Payload::StartProvider {
            host_id: "NHOST".to_string(),
            provider_ref: "ref".to_string(),
            link_name: "default".to_string(),
            annotations: None,
            configuration: Some("c".to_string()),
        }
    );
}

#[test]
fn a_host_id_is_not_trimmed_when_it_is_used() {
    match client().start_provider(" NHOST ", "ref", None, None, None) {
        ProviderStart::Direct(request) => {
            assert_eq!(request.subject, "wasmbus.ctl.default.cmd. NHOST .lp")
        }
        ProviderStart::Deferred(_) => panic!("deferred"),
    }
}

#[test]
fn without_a_host_the_start_is_deferred() {
    for blank in ["", " ", "\t \n"] {
        let r = client().start_provider(blank, "ref", Some("web".to_string()), annotations(), None);
        assert_eq!(
            r,
            ProviderStart::Deferred(DeferredStart {
                discovery: Broadcast {
                    subject: "wasmbus.ctl.default.ping.hosts".to_string(),
                    payload: Payload::Empty,
                    window_ms: 300,
                },
                provider_ref: "ref".to_string(),
                link_name: Some("web".to_string()),
                annotations: annotations(),
                configuration: None,
            })
        );
    }
}

#[test]
fn no_host_found_is_accepted_with_a_reason() {
    let d = client().dispatch_deferred(pending(None), Ok(vec![]));
    assert_eq!(
        d.ack,
        CtlOperationAck {
            accepted: true,
            error: "No hosts detected in in no-host provider start.".to_string(),
        }
    );
    assert!(!d.ack.error.is_empty());
    assert_eq!(d.background, None);
}

#[test]
fn a_failed_discovery_is_accepted_with_its_reason() {
    let d = client().dispatch_deferred(pending(None), Err("connection closed".to_string()));
    assert_eq!(
        d.ack,
        CtlOperationAck {
            accepted: true,
            error: "failed to query hosts for no-host provider start: connection closed"
                .to_string(),
        }
    );
    assert_eq!(d.background, None);
    let d = client().dispatch_deferred(pending(None), Err(String::new()));
    assert!(d.ack.accepted);
    assert_eq!(d.ack.error, "failed to query hosts for no-host provider start: ");
}

#[test]
fn the_first_host_gets_the_command_in_the_background() {
    let d = client().dispatch_deferred(
        pending(Some("web")),
        Ok(vec![host("NFIRST"), host("NSECOND"), host("NTHIRD")]),
    );
    assert_eq!(d.ack, CtlOperationAck { accepted: true, error: String::new() });
    assert_eq!(
        d.background,
        Some(Request {
            subject: "wasmbus.ctl.default.cmd.NFIRST.lp".to_string(),
            payload: Payload::StartProvider {
                host_id: "NFIRST".to_string(),
                provider_ref: "wasmcloud.azurecr.io/httpserver:0.17.0".to_string(),
                link_name: "web".to_string(),
                annotations: annotations(),
                configuration: Some("cfg".to_string()),
            },
            timeout_ms: 1500,
        })
    );
}

#[test]
fn the_background_request_is_the_direct_one() {
    let d = client().dispatch_deferred(pending(None), Ok(vec![host("NONLY")]));
    let direct = client().start_provider_on(
        "NONLY",
        "wasmcloud.azurecr.io/httpserver:0.17.0",
        None,
        annotations(),
        Some("cfg".to_string()),
    );
    assert_eq!(d.background, Some(direct));
}

#[test]
fn discovery_is_a_broadcast_for_the_auction_window() {
    assert_eq!(
        client().get_hosts(),
        Broadcast {
            subject: "wasmbus.ctl.default.ping.hosts".to_string(),
            payload: Payload::Empty,
            window_ms: 300,
        }
    );
}
