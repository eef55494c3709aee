use drogue_server::launcher::{launch, Component, LauncherFlags};
use drogue_server::mqtt::Config;
use drogue_server::plan::command_source;

#[test]
fn debug_messages() {
    let f = LauncherFlags { debug: true, console_backend: false, registry: false, mqtt_endpoint: false };
    assert_eq!(f.debug_message(), "Printing debug info...");
    let f = LauncherFlags { debug: false, console_backend: false, registry: false, mqtt_endpoint: false };
    assert_eq!(f.debug_message(), "Printing normally...");
    assert!(f.launches().is_empty());
}

#[test]
fn all_components_in_order() {
    let f = LauncherFlags { debug: false, console_backend: true, registry: true, mqtt_endpoint: true };
    let v = f.launches();
    let order: Vec<Component> = v.iter().map(|l| l.component).collect();
    assert_eq!(order, vec![Component::Registry, Component::ConsoleBackend, Component::MqttEndpoint]);
    assert_eq!(v[0].bind_addr, "127.0.0.1:10001");
    assert_eq!(v[0].start_message.as_deref(), Some("Starting REGISTRY"));
    assert_eq!(v[0].runtime_name, "registry");
    assert_eq!(v[1].bind_addr, "127.0.0.1:10000");
    assert_eq!(v[1].runtime_name, "console-server");
    assert_eq!(v[1].start_message, None);
    assert_eq!(v[2].bind_addr, "127.0.0.1:10002");
    assert_eq!(v[2].http_bind_addr.as_deref(), Some("127.0.0.1:10003"));
    assert_eq!(v[2].runtime_name, "mqtt-endpoint");
}

#[test]
fn single_component() {
    let f = LauncherFlags { debug: true, console_backend: false, registry: false, mqtt_endpoint: true };
    let v = f.launches();
    assert_eq!(v.len(), 1);
    assert_eq!(v[0].component, Component::MqttEndpoint);
    assert_eq!(launch(Component::ConsoleBackend).http_bind_addr, None);
}

#[test]
fn mqtt_config_accessors() {
    let c = Config {
        disable_tls: false,
        cert_bundle_file: Some("bundle.pem".to_string()),
        key_file: None,
        bind_addr_mqtt: Some("0.0.0.0:1883".to_string()),
        command_source_kafka: command_source("mqtt_endpoint"),
    };
    assert!(!c.is_disabled());
    assert_eq!(c.cert_bundle_file(), Some("bundle.pem"));
    assert_eq!(c.key_file(), None);
    assert_eq!(c.bind_addr(), Some("0.0.0.0:1883"));
    let d = Config { disable_tls: true, key_file: Some("k".to_string()), ..c };
    assert!(d.is_disabled());
    assert_eq!(d.key_file(), Some("k"));
}
