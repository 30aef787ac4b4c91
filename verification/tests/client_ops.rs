use lattice_control::client::{ClientBuilder, ClientCore};
use lattice_control::commands::{Link, RegistryCredential};
use lattice_control::ident::IdentifierKind;
use lattice_control::request::{complete_request, BusReply};
use lattice_control::CtlError;

#[test]
fn builder_collects_settings() {
    let core = ClientBuilder::new()
        .topic_prefix("myctl".to_string())
        .lattice("prod".to_string())
        .timeout(1000)
        .auction_timeout(3000)
        .build();
    assert_eq!(core.topic_prefix, Some("myctl".to_string()));
    assert_eq!(core.lattice(), "prod");
    assert_eq!(core.timeout_ms, 1000);
    assert_eq!(core.auction_timeout_ms, 3000);
}

#[test]
fn defaults_match_the_documented_values() {
    let core = ClientCore::new();
    assert_eq!(core.topic_prefix, None);
    assert_eq!(core.lattice(), "default");
    assert_eq!(core.timeout_ms, 2000);
    assert_eq!(core.auction_timeout_ms, 5000);
}

#[test]
fn scale_to_zero_is_routed_to_the_hosts_command_subject() {
    let core = ClientCore::new();
    let req = core
        .scale_component("NHOST", "ghcr.io/acme/echo:0.1.0", "echo", 0, &None, &Vec::new())
        .unwrap();
    assert_eq!(req.subject, "wasmbus.default.cmd.NHOST.scale");
    assert_eq!(
        req.payload,
        "{\"host_id\":\"NHOST\",\"component_ref\":\"ghcr.io/acme/echo:0.1.0\",\
         \"component_id\":\"echo\",\"max_instances\":0,\"annotations\":null,\"config\":[]}"
    );
    // The host acknowledges receipt with a success envelope that has
    // nothing further to report.
    let ack = complete_request(BusReply::Reply(
        "{\"success\":true,\"message\":\"\",\"response\":null}".to_string(),
    ))
    .unwrap();
    assert!(ack.success);
    assert!(ack.message.is_empty());
    assert_eq!(ack.response, None);
}

#[test]
fn absent_config_is_success_without_payload() {
    let core = ClientCore::new();
    let req = core.get_config("missing");
    assert_eq!(req.subject, "wasmbus.default.get.config.missing");
    assert!(req.payload.is_empty());
    let reply = complete_request(BusReply::Reply(
        "{\"success\":true,\"message\":\"\",\"response\":null}".to_string(),
    ))
    .unwrap();
    assert!(reply.success);
    assert_eq!(reply.response, None);
    // A transport failure is a call-level error, never an envelope.
    let failed = complete_request(BusReply::Transport("connection reset".to_string()));
    assert_eq!(
        failed,
        Err(CtlError::Transport("connection reset".to_string()))
    );
}

#[test]
fn operations_validate_identifiers_before_any_network_activity() {
    let core = ClientCore::new();
    assert_eq!(
        core.get_host_inventory(" ").unwrap_err(),
        CtlError::InvalidIdentifier(IdentifierKind::HostId)
    );
    assert_eq!(
        core.scale_component("", "r", "c", 1, &None, &Vec::new()).unwrap_err(),
        CtlError::InvalidIdentifier(IdentifierKind::HostId)
    );
    assert_eq!(
        core.scale_component("h", " ", "c", 1, &None, &Vec::new()).unwrap_err(),
        CtlError::InvalidIdentifier(IdentifierKind::ComponentRef)
    );
    assert_eq!(
        core.scale_component("h", "r", "\t", 1, &None, &Vec::new()).unwrap_err(),
        CtlError::InvalidIdentifier(IdentifierKind::ComponentId)
    );
    assert_eq!(
        core.perform_component_auction("", "c", &Vec::new()).unwrap_err(),
        CtlError::InvalidIdentifier(IdentifierKind::ComponentRef)
    );
    assert_eq!(
        core.perform_provider_auction("r", " ", &Vec::new()).unwrap_err(),
        CtlError::InvalidIdentifier(IdentifierKind::ProviderId)
    );
    assert_eq!(
        core.update_component("h", " ", "r", &None).unwrap_err(),
        CtlError::InvalidIdentifier(IdentifierKind::ComponentId)
    );
    assert_eq!(
        core.start_provider("h", " ", "p", &None, &Vec::new()).unwrap_err(),
        CtlError::InvalidIdentifier(IdentifierKind::ProviderRef)
    );
    assert_eq!(
        core.start_provider("h", "r", " ", &None, &Vec::new()).unwrap_err(),
        CtlError::InvalidIdentifier(IdentifierKind::ProviderId)
    );
    assert_eq!(
        core.stop_provider("h", "").unwrap_err(),
        CtlError::InvalidIdentifier(IdentifierKind::ProviderId)
    );
    assert_eq!(
        core.stop_host("", None).unwrap_err(),
        CtlError::InvalidIdentifier(IdentifierKind::HostId)
    );
    assert_eq!(
        core.delete_link(" ", "default", "wasi", "http").unwrap_err(),
        CtlError::InvalidIdentifier(IdentifierKind::ComponentId)
    );
    assert_eq!(
        core.put_label("  ", "k", "v").unwrap_err(),
        CtlError::InvalidIdentifier(IdentifierKind::HostId)
    );
    assert_eq!(
        core.delete_label("", "k").unwrap_err(),
        CtlError::InvalidIdentifier(IdentifierKind::HostId)
    );
}

#[test]
fn identifiers_are_trimmed_into_the_payload() {
    let core = ClientCore::new();
    let req = core.stop_provider("  NHOST  ", " httpserver ").unwrap();
    assert_eq!(req.subject, "wasmbus.default.cmd.NHOST.stopp");
    assert_eq!(
        req.payload,
        "{\"host_id\":\"NHOST\",\"provider_id\":\"httpserver\"}"
    );
}

#[test]
fn stop_host_carries_the_optional_grace_period() {
    let core = ClientCore::new();
    let with = core.stop_host("NHOST", Some(1234)).unwrap();
    assert_eq!(with.payload, "{\"host_id\":\"NHOST\",\"timeout\":1234}");
    let without = core.stop_host("NHOST", None).unwrap();
    assert_eq!(without.payload, "{\"host_id\":\"NHOST\",\"timeout\":null}");
}

#[test]
fn auction_request_carries_constraints() {
    let core = ClientCore::new();
    let constraints = vec![("zone".to_string(), "eu-1".to_string())];
    let req = core
        .perform_component_auction("ghcr.io/acme/echo:0.1.0", "echo", &constraints)
        .unwrap();
    assert_eq!(req.subject, "wasmbus.default.auction.component");
    assert_eq!(
        req.payload,
        "{\"component_ref\":\"ghcr.io/acme/echo:0.1.0\",\"component_id\":\"echo\",\
         \"constraints\":{\"zone\":\"eu-1\"}}"
    );
}

#[test]
fn link_round_trips_through_the_payload_verbatim() {
    let core = ClientCore::new();
    let link = Link {
        source_id: "echo".to_string(),
        target: "httpserver".to_string(),
        name: "default".to_string(),
        wit_namespace: "wasi".to_string(),
        wit_package: "http".to_string(),
        interfaces: vec!["incoming-handler".to_string()],
    };
    let req = core.put_link(&link).unwrap();
    assert_eq!(req.subject, "wasmbus.default.linkdef.put");
    assert_eq!(
        req.payload,
        "{\"source_id\":\"echo\",\"target\":\"httpserver\",\"name\":\"default\",\
         \"wit_namespace\":\"wasi\",\"wit_package\":\"http\",\
         \"interfaces\":[\"incoming-handler\"]}"
    );
    let bad = Link { name: "  ".to_string(), ..link };
    assert_eq!(
        core.put_link(&bad).unwrap_err(),
        CtlError::InvalidIdentifier(IdentifierKind::LinkName)
    );
}

#[test]
fn labels_and_registries_use_their_own_subjects() {
    let core = ClientCore::new();
    let put = core.put_label("NHOST", "idk", "lol").unwrap();
    assert_eq!(put.subject, "wasmbus.default.label.put.NHOST");
    assert_eq!(put.payload, "{\"key\":\"idk\",\"value\":\"lol\"}");
    let del = core.delete_label("NHOST", "idk").unwrap();
    assert_eq!(del.subject, "wasmbus.default.label.del.NHOST");
    assert_eq!(del.payload, "{\"key\":\"idk\"}");

    let regs = vec![(
        "mycloud.io".to_string(),
        RegistryCredential {
            username: Some("user".to_string()),
            password: Some("pass".to_string()),
            token: None,
            registry_type: "oci".to_string(),
        },
    )];
    let reg_req = core.put_registries(&regs);
    assert_eq!(reg_req.subject, "wasmbus.default.registries.put");
    assert_eq!(
        reg_req.payload,
        "{\"mycloud.io\":{\"username\":\"user\",\"password\":\"pass\",\
         \"token\":null,\"registry_type\":\"oci\"}}"
    );
}

#[test]
fn put_config_serializes_the_map() {
    let core = ClientCore::new();
    let req = core.put_config(
        "test_config",
        &vec![("sup".to_string(), "hey".to_string())],
    );
    assert_eq!(req.subject, "wasmbus.default.config.put.test_config");
    assert_eq!(req.payload, "{\"sup\":\"hey\"}");
}

#[test]
fn queries_carry_no_payload() {
    let core = ClientCore::new();
    assert!(core.get_hosts().payload.is_empty());
    assert!(core.get_claims().payload.is_empty());
    assert!(core.get_links().payload.is_empty());
    assert!(core.get_host_inventory("NHOST").unwrap().payload.is_empty());
    assert!(core.delete_config("x").payload.is_empty());
}

#[test]
fn failed_calls_are_reported_under_the_operations_context() {
    let core = ClientCore::new();
    let req = core.stop_provider("NHOST", "httpserver").unwrap();
    assert_eq!(req.context, "Did not receive stop provider acknowledgement");
    assert_eq!(
        CtlError::TimedOut.describe(&req.context),
        "Did not receive stop provider acknowledgement: timed out"
    );
    let req = core.put_config("c", &Vec::new());
    assert_eq!(req.context, "Did not receive a response to put config request");
    assert_eq!(
        CtlError::Transport("no route".to_string()).describe(&req.context),
        "Did not receive a response to put config request: transport error: no route"
    );
    let req = core.get_host_inventory("NHOST").unwrap();
    assert_eq!(req.context, "Did not receive host inventory from target host");
    // Validation errors stand on their own words, whatever the context.
    assert_eq!(
        CtlError::InvalidIdentifier(IdentifierKind::HostId).describe(&req.context),
        "Host ID cannot be empty"
    );
    // Auctions collect rather than await one reply, so they carry none.
    assert_eq!(core.get_hosts().context, "");
    assert_eq!(
        CtlError::TimedOut.describe(""),
        "timed out"
    );
}
