use lattice_control::otel::{OtelConfig, OtelProtocol};

#[test]
fn test_grpc_resolves_to_defaults_without_overrides() {
    let config = OtelConfig {
        protocol: OtelProtocol::Grpc,
        ..Default::default()
    };

    let expected = String::from("http://127.0.0.1:4317");

    assert_eq!(expected, config.traces_endpoint());
    assert_eq!(expected, config.metrics_endpoint());
    assert_eq!(expected, config.logs_endpoint());
}

#[test]
fn test_grpc_resolves_to_base_url_without_path_components() {
    let config = OtelConfig {
        protocol: OtelProtocol::Grpc,
        observability_endpoint: Some(String::from(
            "https://example.com:4318/path/does/not/exist",
        )),
        ..Default::default()
    };

    let expected = String::from("https://example.com:4318");

    assert_eq!(expected, config.traces_endpoint());
    assert_eq!(expected, config.metrics_endpoint());
    assert_eq!(expected, config.logs_endpoint());
}

#[test]
fn test_grpc_resolves_to_signal_specific_overrides_as_provided() {
    let config = OtelConfig {
        protocol: OtelProtocol::Grpc,
        traces_endpoint: Some(String::from("https://example.com:4318/path/does/not/exist")),
        ..Default::default()
    };

    let expected_traces = String::from("https://example.com:4318/path/does/not/exist");
    let expected_others = String::from("http://127.0.0.1:4317");

    assert_eq!(expected_traces, config.traces_endpoint());
    assert_eq!(expected_others, config.metrics_endpoint());
    assert_eq!(expected_others, config.logs_endpoint());
}

#[test]
fn test_http_resolves_to_defaults_without_overrides() {
    let config = OtelConfig {
        protocol: OtelProtocol::Http,
        ..Default::default()
    };

    let expected_traces = String::from("http://127.0.0.1:4318/v1/traces");
    let expected_metrics = String::from("http://127.0.0.1:4318/v1/metrics");
    let expected_logs = String::from("http://127.0.0.1:4318/v1/logs");

    assert_eq!(expected_traces, config.traces_endpoint());
    assert_eq!(expected_metrics, config.metrics_endpoint());
    assert_eq!(expected_logs, config.logs_endpoint());
}

#[test]
fn test_http_configuration_for_specific_signal_should_not_affect_other_signals() {
    let config = OtelConfig {
        protocol: OtelProtocol::Http,
        traces_endpoint: Some(String::from(
            "https://example.com:4318/v1/traces/or/something",
        )),
        ..Default::default()
    };

    let expected_traces = String::from("https://example.com:4318/v1/traces/or/something");
    let expected_metrics = String::from("http://127.0.0.1:4318/v1/metrics");
    let expected_logs = String::from("http://127.0.0.1:4318/v1/logs");

    assert_eq!(expected_traces, config.traces_endpoint());
    assert_eq!(expected_metrics, config.metrics_endpoint());
    assert_eq!(expected_logs, config.logs_endpoint());
}

#[test]
fn test_http_should_be_configurable_across_all_signals_via_observability_endpoint() {
    let config = OtelConfig {
        protocol: OtelProtocol::Http,
        observability_endpoint: Some(String::from("https://example.com:4318")),
        ..Default::default()
    };

    let expected_traces = String::from("https://example.com:4318/v1/traces");
    let expected_metrics = String::from("https://example.com:4318/v1/metrics");
    let expected_logs = String::from("https://example.com:4318/v1/logs");

    assert_eq!(expected_traces, config.traces_endpoint());
    assert_eq!(expected_metrics, config.metrics_endpoint());
    assert_eq!(expected_logs, config.logs_endpoint());
}

#[test]
fn enabled_flags_fall_back_to_the_global_switch() {
    let mut config = OtelConfig {
        enable_observability: true,
        ..Default::default()
    };
    assert!(config.traces_enabled());
    assert!(config.metrics_enabled());
    assert!(config.logs_enabled());
    config.enable_logs = Some(false);
    assert!(!config.logs_enabled());
    assert!(config.metrics_enabled());
    config.enable_observability = false;
    config.enable_traces = Some(true);
    assert!(config.traces_enabled());
    assert!(!config.metrics_enabled());
}

#[test]
fn protocol_parses_exactly_two_names() {
    assert_eq!(OtelProtocol::parse("http"), Ok(OtelProtocol::Http));
    assert_eq!(OtelProtocol::parse("grpc"), Ok(OtelProtocol::Grpc));
    let err = OtelProtocol::parse("quic").unwrap_err();
    assert_eq!(
        err,
        "unsupported protocol: \"quic\", did you mean 'http' or 'grpc'?"
    );
    assert!(err.contains("unsupported protocol"));
    assert!(OtelProtocol::parse("Http").is_err());
    assert!(OtelProtocol::parse("GRPC").is_err());
    assert!(OtelProtocol::parse("").is_err());
    assert_eq!(OtelProtocol::default(), OtelProtocol::Http);
}
