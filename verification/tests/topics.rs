use lattice_control::topic;

#[test]
fn topics_are_deterministic() {
    let prefix = None;
    let a = topic::scale_component(&prefix, "default", "NHOST");
    let b = topic::scale_component(&prefix, "default", "NHOST");
    assert_eq!(a, b);
    let c = topic::event_subject(&prefix, "default", "component_scaled");
    let d = topic::event_subject(&prefix, "default", "component_scaled");
    assert_eq!(c, d);
}

#[test]
fn topics_have_expected_shape() {
    let prefix = None;
    assert_eq!(
        topic::scale_component(&prefix, "default", "NHOST"),
        "wasmbus.default.cmd.NHOST.scale"
    );
    assert_eq!(topic::hosts(&prefix, "default"), "wasmbus.default.get.hosts");
    assert_eq!(topic::claims(&prefix, "mylat"), "wasmbus.mylat.get.claims");
    assert_eq!(
        topic::host_inventory(&prefix, "default", "NHOST"),
        "wasmbus.default.get.inv.NHOST"
    );
    assert_eq!(
        topic::config(&prefix, "default", "alpha"),
        "wasmbus.default.get.config.alpha"
    );
    assert_eq!(
        topic::component_auction_subject(&prefix, "default"),
        "wasmbus.default.auction.component"
    );
    assert_eq!(
        topic::provider_auction_subject(&prefix, "default"),
        "wasmbus.default.auction.provider"
    );
    assert_eq!(topic::put_link(&prefix, "default"), "wasmbus.default.linkdef.put");
    assert_eq!(topic::delete_link(&prefix, "default"), "wasmbus.default.linkdef.del");
    assert_eq!(
        topic::put_config(&prefix, "default", "alpha"),
        "wasmbus.default.config.put.alpha"
    );
    assert_eq!(
        topic::delete_config(&prefix, "default", "alpha"),
        "wasmbus.default.config.del.alpha"
    );
    assert_eq!(
        topic::put_label(&prefix, "default", "NHOST"),
        "wasmbus.default.label.put.NHOST"
    );
    assert_eq!(
        topic::delete_label(&prefix, "default", "NHOST"),
        "wasmbus.default.label.del.NHOST"
    );
    assert_eq!(
        topic::publish_registries(&prefix, "default"),
        "wasmbus.default.registries.put"
    );
    assert_eq!(
        topic::event_subject(&prefix, "default", "component_scaled"),
        "wasmbus.evt.default.component_scaled"
    );
}

#[test]
fn custom_prefix_replaces_the_root() {
    let prefix = Some("myctl".to_string());
    assert_eq!(topic::hosts(&prefix, "default"), "myctl.default.get.hosts");
    assert_eq!(
        topic::stop_host(&prefix, "lat", "H1"),
        "myctl.lat.cmd.H1.stop"
    );
    assert_eq!(
        topic::event_subject(&prefix, "default", "host_started"),
        "myctl.evt.default.host_started"
    );
}

#[test]
fn varying_any_argument_changes_the_topic() {
    let prefix = None;
    let base = topic::scale_component(&prefix, "default", "H1");
    assert_ne!(base, topic::scale_component(&prefix, "default", "H2"));
    assert_ne!(base, topic::scale_component(&prefix, "other", "H1"));
    assert_ne!(base, topic::update_component(&prefix, "default", "H1"));
    assert_ne!(base, topic::start_provider(&prefix, "default", "H1"));
    assert_ne!(base, topic::stop_provider(&prefix, "default", "H1"));
    assert_ne!(base, topic::stop_host(&prefix, "default", "H1"));
    assert_ne!(
        topic::put_config(&prefix, "default", "a"),
        topic::delete_config(&prefix, "default", "a")
    );
    assert_ne!(
        topic::host_inventory(&prefix, "default", "config"),
        topic::config(&prefix, "default", "inv")
    );
}

#[test]
fn segment_check_rejects_delimiter_and_wildcards() {
    assert!(topic::segment_ok("NHOSTID"));
    assert!(topic::segment_ok("host-1_2"));
    assert!(!topic::segment_ok("a.b"));
    assert!(!topic::segment_ok("a*"));
    assert!(!topic::segment_ok(">"));
    assert!(topic::segment_ok(""));
}
