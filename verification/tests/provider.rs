use controller::error::OSLOError;
use controller::prometheus_default_path_status_config;
use controller::provider::{CheckStart, ProbeAction, ProbeEvent, PrometheusProvider, probe_step, start_check};
use controller::resources::{
    DataSourceConnectionDetails, DatadogConnectionDetails, PrometheusConnectionDetails, PrometheusPaths,
};

fn paths() -> PrometheusPaths {
    PrometheusPaths { status_config: prometheus_default_path_status_config() }
}

fn failure(action: ProbeAction) -> String {
    match action {
        ProbeAction::Finish(Some(OSLOError::PrometheusError(m))) => m,
        other => panic!("unexpected step {:?}", other),
    }
}

#[test]
fn default_status_config_path() {
    assert_eq!(prometheus_default_path_status_config(), "/prometheus/api/v1/status/config");
}

#[test]
fn prometheus_details_give_a_provider() {
    let details = DataSourceConnectionDetails::PrometheusConnectionDetails(PrometheusConnectionDetails {
        url: "http://prom:9090".to_string(),
        paths: paths(),
    });
    let provider = PrometheusProvider::new(details).unwrap();
    assert_eq!(provider.config.url, "http://prom:9090");
    assert_eq!(provider.status_config_url(), "http://prom:9090/prometheus/api/v1/status/config");
}

#[test]
fn other_details_are_refused() {
    let details = DataSourceConnectionDetails::DatadogConnectionDetails(DatadogConnectionDetails {
        url: "http://dd".to_string(),
        paths: PrometheusPaths { status_config: "/s".to_string() },
    });
    match PrometheusProvider::new(details) {
        Err(OSLOError::ProviderError(m)) => assert_eq!(
            m,
            "parse incorrect, DatadogConnectionDetails(DatadogConnectionDetails { url: \"http://dd\", paths: PrometheusPaths { status_config: \"/s\" } })"
        ),
        other => panic!("unexpected {:?}", other),
    }
}

#[test]
fn ok_answer_has_its_body_read() {
    assert!(matches!(probe_step(ProbeEvent::Responded(200)), ProbeAction::ReadBody));
}

#[test]
fn other_answers_fail_with_their_status() {
    assert_eq!(failure(probe_step(ProbeEvent::Responded(404))), "Response code is incorrect 404 Not Found.");
    assert_eq!(failure(probe_step(ProbeEvent::Responded(503))), "Response code is incorrect 503 Service Unavailable.");
    assert_eq!(failure(probe_step(ProbeEvent::Responded(599))), "Response code is incorrect 599 <unknown status code>.");
}

#[test]
fn body_status_decides() {
    assert!(matches!(probe_step(ProbeEvent::BodyRead("success".to_string())), ProbeAction::Finish(None)));
    assert_eq!(
        failure(probe_step(ProbeEvent::BodyRead("error".to_string()))),
        "Prometheus configuration is unsucceed. Status error"
    );
}

#[test]
fn transport_and_parse_errors() {
    assert_eq!(failure(probe_step(ProbeEvent::SendFailed("refused".to_string()))), "Connection error: refused");
    assert_eq!(failure(probe_step(ProbeEvent::BodyUnreadable("eof".to_string()))), "Parse error: eof");
}

#[test]
fn check_starts_with_a_probe_or_a_refusal() {
    let prometheus = DataSourceConnectionDetails::PrometheusConnectionDetails(PrometheusConnectionDetails {
        url: "http://prom:9090".to_string(),
        paths: paths(),
    });
    match start_check(prometheus) {
        CheckStart::Probe(url) => assert_eq!(url, "http://prom:9090/prometheus/api/v1/status/config"),
        other => panic!("unexpected {:?}", other),
    }
    let datadog = DataSourceConnectionDetails::DatadogConnectionDetails(DatadogConnectionDetails {
        url: "http://dd".to_string(),
        paths: PrometheusPaths { status_config: "/s".to_string() },
    });
    match start_check(datadog) {
        CheckStart::Done(Some(OSLOError::ProviderError(m))) => assert!(m.starts_with("parse incorrect, DatadogConnectionDetails(")),
        other => panic!("unexpected {:?}", other),
    }
}
