use lattice_control::client::{ClientBuilder, ClientCore};
use lattice_control::events::{decode_event, encode_event, on_event_message, Event};

fn event(event_type: &str, id: &str, data: Option<&str>) -> Event {
    Event {
        event_type: event_type.to_string(),
        id: id.to_string(),
        source: "NHOST".to_string(),
        data: data.map(|p| p.to_string()),
    }
}

#[test]
fn event_wire_form_is_exact() {
    assert_eq!(
        encode_event(&event("component_scaled", "e-1", None)),
        "{\"specversion\":\"1.0\",\"type\":\"component_scaled\",\"id\":\"e-1\",\"source\":\"NHOST\",\"data\":null}"
    );
}

#[test]
fn event_round_trip() {
    for e in [
        event("component_scaled", "e-1", None),
        event("host_started", "e-2", Some("{\"labels\":{}}")),
        event("weird \"type\"", "e\\3", Some("[null]")),
    ] {
        assert_eq!(decode_event(&encode_event(&e)).unwrap(), e);
    }
}

#[test]
fn fan_in_delivers_one_event_per_category() {
    let a = event("component_scaled", "e-a", None);
    let b = event("provider_started", "e-b", Some("{\"ok\":true}"));
    let arrivals = [encode_event(&a), encode_event(&b)];
    let mut delivered = Vec::new();
    for payload in &arrivals {
        if let Some(e) = on_event_message(payload) {
            delivered.push(e);
        }
    }
    assert_eq!(delivered.len(), 2);
    assert_eq!(delivered[0], a);
    assert_eq!(delivered[1], b);
    assert_eq!(delivered[0].event_type, "component_scaled");
    assert_eq!(delivered[1].event_type, "provider_started");
}

#[test]
fn decode_failures_are_skipped_not_fatal() {
    assert_eq!(on_event_message("not a cloud event"), None);
    assert_eq!(on_event_message(""), None);
    let good = event("host_heartbeat", "e-9", None);
    assert_eq!(on_event_message(&encode_event(&good)), Some(good));
}

#[test]
fn configured_prefix_flows_into_event_subjects() {
    let core = ClientBuilder::new()
        .topic_prefix("myctl".to_string())
        .lattice("prod".to_string())
        .build();
    let subjects = core.event_subjects(&vec!["host_started".to_string()]);
    assert_eq!(subjects, vec!["myctl.evt.prod.host_started".to_string()]);
}

#[test]
fn one_subject_per_requested_category() {
    let core = ClientCore::new();
    let types = vec!["component_scaled".to_string(), "host_started".to_string()];
    let subjects = core.event_subjects(&types);
    assert_eq!(
        subjects,
        vec![
            "wasmbus.evt.default.component_scaled".to_string(),
            "wasmbus.evt.default.host_started".to_string(),
        ]
    );
}
