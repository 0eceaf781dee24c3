use wasmcloud_control_interface::subject::{control_event, subject, Operation};
use wasmcloud_control_interface::text::is_blank;

fn at(operation: Operation, target: &str) -> String {
    subject(&None, "default", operation, target).unwrap()
}

#[test]
fn untargeted_subjects_under_the_default_prefix() {
    assert_eq!(at(Operation::ActorAuction, ""), "wasmbus.ctl.default.auction.actor");
    assert_eq!(at(Operation::ProviderAuction, ""), "wasmbus.ctl.default.auction.provider");
    assert_eq!(at(Operation::AdvertiseLink, ""), "wasmbus.ctl.default.linkdefs.put");
    assert_eq!(at(Operation::RemoveLink, ""), "wasmbus.ctl.default.linkdefs.del");
    assert_eq!(at(Operation::PublishRegistries, ""), "wasmbus.ctl.default.registries.put");
    assert_eq!(at(Operation::LinkDefinitions, ""), "wasmbus.ctl.default.get.links");
    assert_eq!(at(Operation::Claims, ""), "wasmbus.ctl.default.get.claims");
    assert_eq!(at(Operation::Hosts, ""), "wasmbus.ctl.default.ping.hosts");
}

#[test]
fn targeted_subjects_hold_the_host() {
    assert_eq!(at(Operation::StartActor, "NABC"), "wasmbus.ctl.default.cmd.NABC.la");
    assert_eq!(at(Operation::ScaleActor, "NABC"), "wasmbus.ctl.default.cmd.NABC.scale");
    assert_eq!(at(Operation::StopActor, "NABC"), "wasmbus.ctl.default.cmd.NABC.sa");
    assert_eq!(at(Operation::StartProvider, "NABC"), "wasmbus.ctl.default.cmd.NABC.lp");
    assert_eq!(at(Operation::StopProvider, "NABC"), "wasmbus.ctl.default.cmd.NABC.sp");
    assert_eq!(at(Operation::UpdateActor, "NABC"), "wasmbus.ctl.default.cmd.NABC.upd");
    assert_eq!(at(Operation::StopHost, "NABC"), "wasmbus.ctl.default.cmd.NABC.stop");
    assert_eq!(at(Operation::HostInventory, "NABC"), "wasmbus.ctl.default.get.NABC.inv");
}

#[test]
fn untargeted_subjects_pass_over_the_target() {
    assert_eq!(at(Operation::Hosts, "NABC"), at(Operation::Hosts, ""));
    assert_eq!(at(Operation::Claims, "NABC"), at(Operation::Claims, "NXYZ"));
}

#[test]
fn a_topic_prefix_takes_the_place_of_the_default() {
    let prefix = Some("acme.control".to_string());
    assert_eq!(
        subject(&prefix, "prod", Operation::StopHost, "N1").unwrap(),
        "acme.control.prod.cmd.N1.stop"
    );
    assert_eq!(
        subject(&prefix, "prod", Operation::Hosts, "").unwrap(),
        "acme.control.prod.ping.hosts"
    );
}

#[test]
fn an_empty_lattice_has_no_subject() {
    assert_eq!(subject(&None, "", Operation::Hosts, ""), None);
    assert_eq!(subject(&Some("p".to_string()), "", Operation::StartActor, "N1"), None);
    assert_eq!(control_event(""), None);
}

#[test]
fn the_event_subject_passes_over_the_topic_prefix() {
    assert_eq!(control_event("default").unwrap(), "wasmbus.evt.default");
    assert_eq!(control_event("prod").unwrap(), "wasmbus.evt.prod");
}

#[test]
fn distinct_operations_and_hosts_have_distinct_subjects() {
    let operations = [
        Operation::ActorAuction,
        Operation::ProviderAuction,
        Operation::AdvertiseLink,
        Operation::RemoveLink,
        Operation::PublishRegistries,
        Operation::StartActor,
        Operation::ScaleActor,
        Operation::StopActor,
        Operation::StartProvider,
        Operation::StopProvider,
        Operation::UpdateActor,
        Operation::StopHost,
        Operation::LinkDefinitions,
        Operation::Claims,
        Operation::HostInventory,
        Operation::Hosts,
    ];
    let hosts = ["N1", "N2", "links", "N1.la", ""];
    let mut seen: Vec<(String, Operation, String)> = Vec::new();
    for operation in operations {
        for host in hosts {
            let s = at(operation, host);
            for (other, other_operation, other_host) in &seen {
                if *other == s {
                    assert_eq!(*other_operation, operation);
                    let targeted = at(operation, "a") != at(operation, "b");
                    assert!(!targeted || other_host == host);
                }
            }
            seen.push((s, operation, host.to_string()));
        }
    }
    assert_eq!(seen.len(), 80);
}

#[test]
fn blank_is_empty_or_all_white_space() {
    assert!(is_blank(""));
    assert!(is_blank(" "));
    assert!(is_blank(" \t\r\n"));
    assert!(is_blank("\u{00A0}\u{2003}\u{3000}\u{0085}\u{1680}\u{2028}\u{2029}\u{202F}\u{205F}"));
    assert!(!is_blank("N1"));
    assert!(!is_blank("  N1  "));
    assert!(!is_blank("\u{200B}"));
    assert!(!is_blank("\u{001C}"));
}

#[test]
fn blank_agrees_with_trimming() {
    for code in 0u32..0x3100 {
        if let Some(c) = char::from_u32(code) {
            let s = c.to_string();
            assert_eq!(is_blank(&s), s.trim().is_empty(), "U+{:04X}", code);
        }
    }
}
