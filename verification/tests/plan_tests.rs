use drogue_server::plan::{
    console_settings, device_state_session_timeout_secs, mqtt_integration_settings, state_init_delay_secs,
    all_services, command_source, console_client_id, exit_warning, exited_quickly, http_address_url,
    http_url, mqtt_listeners, oauth_clients, parse_service_url, service_client_id, service_url,
    verbosity, PlanError, RunFlags, Runtime, Service,
};

fn no_flags() -> RunFlags {
    RunFlags {
        enable_all: false,
        enable_console_backend: false,
        enable_device_registry: false,
        enable_device_state: false,
        enable_user_authentication_service: false,
        enable_authentication_service: false,
        enable_coap_endpoint: false,
        enable_http_endpoint: false,
        enable_mqtt_endpoint: false,
        enable_mqtt_integration: false,
        enable_websocket_integration: false,
        enable_command_endpoint: false,
        server_cert: None,
        server_key: None,
    }
}

#[test]
fn enable_all_starts_every_service_in_order() {
    let mut f = no_flags();
    f.enable_all = true;
    assert_eq!(f.enabled_services(), all_services());
    assert_eq!(f.enabled_services().len(), 11);
    assert_eq!(f.enabled_services()[0], Service::DeviceRegistry);
    assert_eq!(f.enabled_services()[10], Service::CoapEndpoint);
}

#[test]
fn no_flag_starts_nothing() {
    let f = no_flags();
    assert!(f.enabled_services().is_empty());
    for s in all_services() {
        assert!(!f.is_enabled(s));
    }
}

#[test]
fn single_flags_start_their_service() {
    let mut f = no_flags();
    f.enable_mqtt_endpoint = true;
    f.enable_device_registry = true;
    assert_eq!(f.enabled_services(), vec![Service::DeviceRegistry, Service::MqttEndpoint]);
    assert!(f.is_enabled(Service::MqttEndpoint));
    assert!(!f.is_enabled(Service::MqttIntegration));
}

#[test]
fn enable_flags_name_the_cli_switches() {
    assert_eq!(Service::DeviceRegistry.enable_flag(), "enable-device-registry");
    assert_eq!(Service::UserAuthentication.enable_flag(), "enable-user-authentication-service");
    assert_eq!(Service::CoapEndpoint.enable_flag(), "enable-coap-endpoint");
    let cli = drogue_server::cli::args();
    for s in all_services() {
        assert!(cli.subcommand_args.iter().any(|a| a.name == s.enable_flag() && !a.takes_value));
    }
}

#[test]
fn runtimes_of_services() {
    assert_eq!(Service::MqttEndpoint.runtime(), Runtime::Ntex);
    assert_eq!(Service::MqttIntegration.runtime(), Runtime::Ntex);
    assert_eq!(Service::CoapEndpoint.runtime(), Runtime::Coap);
    assert_eq!(Service::ConsoleBackend.runtime(), Runtime::Actix);
    assert_eq!(Service::HttpEndpoint.runtime(), Runtime::Actix);
}

#[test]
fn runtime_threads_follow_coap() {
    let mut f = no_flags();
    assert_eq!(f.runtime_threads(), vec![Runtime::Actix, Runtime::Ntex]);
    f.enable_coap_endpoint = true;
    assert_eq!(f.runtime_threads(), vec![Runtime::Actix, Runtime::Ntex, Runtime::Coap]);
    let mut g = no_flags();
    g.enable_all = true;
    assert_eq!(g.runtime_threads().len(), 3);
}

#[test]
fn service_texts() {
    assert_eq!(Service::DeviceRegistry.metrics_namespace(), Some("device_management_service"));
    assert_eq!(Service::CommandEndpoint.metrics_namespace(), Some("command_endpoint"));
    assert_eq!(Service::ConsoleBackend.metrics_namespace(), None);
    assert_eq!(Service::HttpEndpoint.enabling_message(), "Enabling HTTP endpoint");
    assert_eq!(Service::Authentication.enabling_message(), "Enabling device authentication service");
    assert_eq!(Service::HttpEndpoint.consumer_group(), Some("http_endpoint"));
    assert_eq!(Service::CoapEndpoint.consumer_group(), Some("coap_endpoint"));
    assert_eq!(Service::DeviceState.consumer_group(), None);
    assert_eq!(Service::DeviceRegistry.event_topic(), Some("registry"));
    assert_eq!(Service::DeviceState.event_topic(), None);
}

#[test]
fn tls_needs_certificate_and_key() {
    let mut f = no_flags();
    assert!(!f.tls());
    f.server_cert = Some("cert.pem".to_string());
    assert!(!f.tls());
    let t = f.endpoint_tls();
    assert!(t.disable_tls);
    assert_eq!(t.cert_bundle_file.as_deref(), Some("cert.pem"));
    assert_eq!(t.key_file, None);
    f.server_key = Some("key.pem".to_string());
    assert!(f.tls());
    let t = f.endpoint_tls();
    assert!(!t.disable_tls);
    assert_eq!(t.key_file.as_deref(), Some("key.pem"));
}

#[test]
fn websocket_listener_skips_client_certificates() {
    let mut f = no_flags();
    f.server_cert = Some("c".to_string());
    f.server_key = Some("k".to_string());
    let (plain, ws) = mqtt_listeners(f.endpoint_tls(), "localhost:1883".to_string(), "localhost:8080".to_string());
    assert_eq!(plain.bind_addr, "localhost:1883");
    assert!(!plain.disable_client_certificates);
    assert!(!plain.tls.disable_tls);
    assert_eq!(ws.bind_addr, "localhost:8080");
    assert!(ws.disable_client_certificates);
    assert_eq!(plain.workers, 1);
    assert_eq!(ws.workers, 1);
    assert_eq!(ws.tls.cert_bundle_file.as_deref(), Some("c"));
}

#[test]
fn kafka_command_source() {
    let c = command_source("mqtt_endpoint");
    assert_eq!(c.topic, "iot-commands");
    assert_eq!(c.consumer_group, "mqtt_endpoint");
}

#[test]
fn oauth_clients_share_the_secret() {
    let v = oauth_clients("s3cr3t", true);
    assert_eq!(v.len(), 2);
    assert_eq!(v[0].client_id, "drogue");
    assert_eq!(v[1].client_id, "services");
    for c in &v {
        assert_eq!(c.client_secret, "s3cr3t");
        assert_eq!(c.scopes, "openid profile email");
        assert!(c.tls_insecure);
        assert_eq!(c.name, c.client_id);
        assert_eq!(c.issuer_url, None);
    }
    assert_eq!(service_client_id(), "services");
    assert_eq!(console_client_id(), "drogue");
}

#[test]
fn service_url_texts() {
    assert_eq!(http_url("localhost", 8080), "http://localhost:8080");
    assert_eq!(http_url("127.0.0.1", 0), "http://127.0.0.1:0");
    assert_eq!(http_address_url("localhost:8084"), "http://localhost:8084");
}

#[test]
fn service_urls_are_parsed() {
    let u = service_url("localhost", 8081).unwrap();
    assert_eq!(u.as_str(), "http://localhost:8081/");
    assert_eq!(u.port(), Some(8081));
    assert_eq!(u, parse_service_url("http://localhost:8081").unwrap());
    // the default port is dropped by the parser's normalisation
    let u = service_url("example.com", 80).unwrap();
    assert_eq!(u.as_str(), "http://example.com/");
}

#[test]
fn invalid_url_is_refused() {
    match parse_service_url("not a url") {
        Err(PlanError::InvalidUrl(t)) => assert_eq!(t, "not a url"),
        Ok(_) => panic!("accepted"),
    }
    match service_url("bad host", 80) {
        Err(PlanError::InvalidUrl(t)) => assert_eq!(t, "http://bad host:80"),
        Ok(_) => panic!("accepted"),
    }
    assert!(parse_service_url("http://localhost:8084").is_ok());
}

#[test]
fn verbosity_counts_from_one() {
    assert_eq!(verbosity(0), 1);
    assert_eq!(verbosity(3), 4);
}

#[test]
fn quick_exit_warning() {
    assert!(exited_quickly(0));
    assert!(exited_quickly(1));
    assert!(!exited_quickly(2));
    assert_eq!(
        exit_warning(1),
        Some("Server exited quickly. Maybe no services had been enabled. You can enable services using --enable-* or enable all using --enable-all.")
    );
    assert_eq!(exit_warning(60), None);
}

#[test]
fn http_settings_per_service() {
    let mut f = no_flags();
    f.server_cert = Some("c".to_string());
    f.server_key = Some("k".to_string());
    let tls = f.endpoint_tls();

    let h = Service::HttpEndpoint.http_settings("localhost:8088".to_string(), &tls).unwrap();
    assert_eq!(h.bind_addr, "localhost:8088");
    assert_eq!(h.workers, 1);
    assert_eq!(h.metrics_namespace, None);
    let t = h.tls.unwrap();
    assert!(!t.disable_tls);
    assert_eq!(t.key_file.as_deref(), Some("k"));

    let h = Service::DeviceRegistry.http_settings("localhost:10001".to_string(), &tls).unwrap();
    assert_eq!(h.metrics_namespace.as_deref(), Some("device_management_service"));
    assert!(h.tls.is_none());

    let h = Service::WebsocketIntegration.http_settings("localhost:10002".to_string(), &tls).unwrap();
    assert_eq!(h.metrics_namespace.as_deref(), Some("websocket_integration"));
    assert!(h.tls.is_some());

    assert!(Service::MqttEndpoint.http_settings("x".to_string(), &tls).is_none());
    assert!(Service::CoapEndpoint.http_settings("x".to_string(), &tls).is_none());
}

#[test]
fn fixed_service_settings() {
    let r = Service::DeviceRegistry.settings("registry_db");
    assert_eq!(r.instance.as_deref(), Some("registry_db"));
    assert_eq!(r.enable_access_token, Some(true));
    assert_eq!(r.check_kafka_topic_ready, None);

    let s = Service::DeviceState.settings("registry_db");
    assert_eq!(s.instance.as_deref(), Some("drogue"));
    assert_eq!(s.enable_access_token, Some(true));
    assert_eq!(s.check_kafka_topic_ready, Some(false));

    let u = Service::UserAuthentication.settings("db");
    assert_eq!(u.instance, None);
    assert_eq!(u.enable_access_token, None);

    let c = Service::ConsoleBackend.settings("db");
    assert_eq!(c.enable_access_token, Some(true));
    assert_eq!(c.instance, None);

    let cmd = Service::CommandEndpoint.settings("db");
    assert_eq!(cmd.instance.as_deref(), Some("drogue"));
    assert_eq!(cmd.enable_access_token, Some(true));

    for svc in [Service::HttpEndpoint, Service::MqttEndpoint, Service::MqttIntegration, Service::CoapEndpoint] {
        let x = svc.settings("db");
        assert_eq!(x.instance.as_deref(), Some("drogue"));
        assert_eq!(x.enable_access_token, None);
        assert_eq!(x.check_kafka_topic_ready, Some(false));
    }

    assert_eq!(device_state_session_timeout_secs(), 10);
    assert_eq!(state_init_delay_secs(), 2);
    let console = console_settings();
    assert!(!console.enable_kube && !console.disable_account_url);
    assert_eq!(console.scopes, "openid profile email");
    assert_eq!(console.token_client_id, "drogue");
    let m = mqtt_integration_settings();
    assert!(!m.enable_username_password_auth && !m.disable_api_keys);
}
