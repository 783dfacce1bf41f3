use msgvault::discovery::{
    DiscoveryEngine, DiscoveryInput, DiscoveryRequest, DiscoverySource, DiscoveryStepStatus,
};

#[test]
fn discovery_short_circuit() {
    // the environment override points at an unreachable server; the chain
    // moves on to the config files and stops at the first reachable one
    let mut engine = DiscoveryEngine::new(vec![
        "/etc/one/config.toml".to_string(),
        "/etc/two/config.toml".to_string(),
    ]);
    assert!(matches!(engine.next_request(), DiscoveryRequest::ReadEnvConfig));

    engine.step(DiscoveryInput::EnvConfig {
        contents: Some("server_url = \"http://unreachable:9\"\n".to_string()),
    });
    match engine.next_request() {
        DiscoveryRequest::Ping { url } => assert_eq!(url, "http://unreachable:9"),
        other => panic!("unexpected request: {:?}", other),
    }

    engine.step(DiscoveryInput::PingOutcome { reachable: false });
    match engine.next_request() {
        DiscoveryRequest::ReadFile { path } => assert_eq!(path, "/etc/one/config.toml"),
        other => panic!("unexpected request: {:?}", other),
    }

    engine.step(DiscoveryInput::FileContents {
        contents: Some(
            "server_url = \"http://srv:8080\"\napi_key = \"SECRET-REDACTED\"\n".to_string(),
        ),
    });
    match engine.next_request() {
        DiscoveryRequest::Ping { url } => assert_eq!(url, "http://srv:8080"),
        other => panic!("unexpected request: {:?}", other),
    }

    engine.step(DiscoveryInput::PingOutcome { reachable: true });
    match engine.next_request() {
        DiscoveryRequest::Done { result } => {
            assert!(result.found_server());
            assert!(!result.needs_wizard());
            assert_eq!(result.server_url, Some("http://srv:8080".to_string()));
            assert_eq!(result.api_key, Some("SECRET-REDACTED".to_string()));
            assert_eq!(
                result.source,
                DiscoverySource::ConfigFile("/etc/one/config.toml".to_string())
            );
            // the failed override, then the found config file
            assert_eq!(result.steps.len(), 2);
            assert_eq!(result.steps[0].name, "MSGVAULT_HOME");
            assert_eq!(result.steps[0].status, DiscoveryStepStatus::NotFound);
            assert_eq!(result.steps[1].name, "Config: /etc/one/config.toml");
            assert_eq!(
                result.steps[1].status,
                DiscoveryStepStatus::Found("http://srv:8080".to_string())
            );
        },
        other => panic!("unexpected request: {:?}", other),
    }
}

#[test]
fn discovery_exhausts_to_wizard() {
    // nothing configured and nothing listening: four port probes, then the
    // wizard
    let mut engine = DiscoveryEngine::new(vec![]);
    engine.step(DiscoveryInput::EnvConfig { contents: None });
    let expected = [
        "http://localhost:8080",
        "http://localhost:8081",
        "http://localhost:3000",
        "http://localhost:9000",
    ];
    for want in expected.iter() {
        match engine.next_request() {
            DiscoveryRequest::Ping { url } => assert_eq!(&url, want),
            other => panic!("unexpected request: {:?}", other),
        }
        engine.step(DiscoveryInput::PingOutcome { reachable: false });
    }
    match engine.next_request() {
        DiscoveryRequest::Done { result } => {
            assert!(!result.found_server());
            assert!(result.needs_wizard());
            assert_eq!(result.source, DiscoverySource::NeedsWizard);
            assert_eq!(result.steps.last().unwrap().name, "No server found");
        },
        other => panic!("unexpected request: {:?}", other),
    }
}

#[test]
fn discovery_rejects_config_without_url() {
    // a config file that parses but names no server is no candidate
    let mut engine = DiscoveryEngine::new(vec!["/etc/one/config.toml".to_string()]);
    engine.step(DiscoveryInput::EnvConfig { contents: Some("api_key = \"k\"\n".to_string()) });
    match engine.next_request() {
        DiscoveryRequest::ReadFile { path } => assert_eq!(path, "/etc/one/config.toml"),
        other => panic!("unexpected request: {:?}", other),
    }
    // unparsable text is no candidate either
    engine.step(DiscoveryInput::FileContents { contents: Some("{not toml".to_string()) });
    match engine.next_request() {
        DiscoveryRequest::Ping { url } => assert_eq!(url, "http://localhost:8080"),
        other => panic!("unexpected request: {:?}", other),
    }
}

#[test]
fn health_ping_url_trims_slashes() {
    assert_eq!(
        msgvault::discovery::health_ping_url("http://x:1//"),
        "http://x:1/api/v1/health"
    );
    assert_eq!(msgvault::discovery::health_ping_url("http://x:1"), "http://x:1/api/v1/health");
}
