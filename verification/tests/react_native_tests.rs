use devdock::config::{ProcessOptions, ServiceConfig, ServiceType};
use devdock::react_native::{metro_port, reload, reload_response, MetroError, DEFAULT_METRO_PORT};

fn service(args: &[&str], env: &[(&str, &str)]) -> ServiceConfig {
    ServiceConfig {
        id: "metro".to_string(),
        name: "Metro".to_string(),
        service_type: ServiceType::ReactNative,
        group: "mobile".to_string(),
        cwd: None,
        command: Some("npx".to_string()),
        args: args.iter().map(|a| a.to_string()).collect(),
        env: env.iter().map(|(k, v)| (k.to_string(), v.to_string())).collect(),
        process: ProcessOptions::default(),
        windows_service: None,
        log: None,
        status: None,
        actions: Vec::new(),
    }
}

#[test]
fn detects_metro_port_from_supported_sources() {
    assert_eq!(
        metro_port(&service(&["react-native", "start", "--port", "8090"], &[])).unwrap(),
        8090
    );
    assert_eq!(metro_port(&service(&["react-native", "start", "--port=8091"], &[])).unwrap(), 8091);
    assert_eq!(
        metro_port(&service(
            &["react-native", "start", "--port", "8090"],
            &[("RCT_METRO_PORT", "8092")]
        ))
        .unwrap(),
        8092
    );
    assert_eq!(metro_port(&service(&["react-native", "start"], &[])).unwrap(), DEFAULT_METRO_PORT);
}

#[test]
fn invalid_ports_are_reported() {
    let e = metro_port(&service(&["--port", "70000"], &[])).unwrap_err();
    assert_eq!(
        e,
        MetroError::InvalidPort { value: "70000".to_string(), source: "--port".to_string() }
    );
    assert_eq!(e.message(), "invalid Metro port '70000' from --port");
    assert_eq!(
        metro_port(&service(&[], &[("RCT_METRO_PORT", "-1")])).unwrap_err().message(),
        "invalid Metro port '-1' from RCT_METRO_PORT"
    );
    assert_eq!(
        metro_port(&service(&["--port"], &[])).unwrap_err().message(),
        "--port requires a value"
    );
    assert!(metro_port(&service(&["--port="], &[])).is_err());
}

#[test]
fn port_parsing_follows_u16_rules() {
    assert_eq!(metro_port(&service(&["--port=+8093"], &[])).unwrap(), 8093);
    assert_eq!(metro_port(&service(&["--port=065535"], &[])).unwrap(), 65535);
    assert!(metro_port(&service(&["--port=65536"], &[])).is_err());
    assert!(metro_port(&service(&["--port= 80"], &[])).is_err());
    assert!(metro_port(&service(&["--port=+"], &[])).is_err());
}

#[test]
fn reload_request_targets_metro_port() {
    let request = reload(&service(&["--port", "8095"], &[])).unwrap();
    assert_eq!(request.port, 8095);
    assert_eq!(
        request.request,
        "GET /reload HTTP/1.1\r\nHost: 127.0.0.1:8095\r\nConnection: close\r\n\r\n"
    );
}

#[test]
fn reload_response_needs_a_success_status() {
    assert!(reload_response("HTTP/1.1 200 OK\r\n").is_ok());
    assert!(reload_response("  HTTP/1.1   204 No Content").is_ok());
    let e = reload_response("HTTP/1.1 404 Not Found\r\n").unwrap_err();
    assert_eq!(e.message(), "Metro reload request failed: HTTP/1.1 404 Not Found");
    assert!(reload_response("").is_err());
    assert!(reload_response("HTTP/1.1").is_err());
}
