use drogue_server::summary::{summary_lines, Context, Endpoint, Endpoints};

fn ep(host: &str, port: u16) -> Endpoint {
    Endpoint { host: host.to_string(), port }
}

fn endpoints() -> Endpoints {
    Endpoints {
        console: ep("localhost", 10001),
        http: ep("localhost", 8088),
        mqtt: ep("localhost", 1883),
        coap: ep("localhost", 5683),
        websocket_integration: ep("localhost", 10002),
        mqtt_integration: ep("localhost", 18883),
        command: ep("localhost", 10003),
        keycloak_user: "admin".to_string(),
        keycloak_password: "admin123456".to_string(),
    }
}

#[test]
fn context_schemes() {
    let c = Context::new(true);
    assert_eq!(c.http_prefix, "https");
    assert_eq!(c.mqtt_prefix, "mqtts");
    assert!(c.tls);
    let c = Context::new(false);
    assert_eq!(c.http_prefix, "http");
    assert_eq!(c.mqtt_prefix, "mqtt");
    assert!(!c.tls);
}

#[test]
fn summary_without_tls() {
    let lines = summary_lines(&Context::new(false), &endpoints());
    let expected = vec![
        "Drogue Cloud is running!",
        "",
        "Endpoints:",
        "\tAPI:\t http://localhost:10001",
        "\tHTTP:\t http://localhost:8088",
        "\tMQTT:\t mqtt://localhost:1883",
        "\tCoAP:\t coap://localhost:5683",
        "",
        "Integrations:",
        "\tWebSocket:\t ws://localhost:10002",
        "\tMQTT:\t\t mqtt://localhost:18883",
        "",
        "Command:",
        "\tHTTP:\t http://localhost:10003",
        "",
        "Keycloak Credentials:",
        "\tUser: admin",
        "\tPassword: admin123456",
        "",
        "Logging in:",
        "\tdrg login http://localhost:10001",
        "",
        "Creating an application:",
        "\tdrg create app example-app",
        "",
        "Creating a device:",
        "\tdrg create device --application example-app device1 --spec '{\"credentials\":{\"credentials\":[{\"pass\":\"hey-rodney\"}]}}'",
        "",
        "Streaming telemetry data for an application:",
        "\tdrg stream -a example-app",
        "",
        "Publishing data to the HTTP endpoint:",
        "\tcurl -u 'device1@example-app:hey-rodney' -d '{\"temp\": 42}' -v -H \"Content-Type: application/json\" -X POST http://localhost:8088/v1/telemetry",
        "",
        "Publishing data to the MQTT endpoint:",
        "\tmqtt pub -v -h localhost -p 1883 -u 'device1@example-app' -pw 'hey-rodney'  -t temp -m '{\"temp\":42}'",
        "",
    ];
    assert_eq!(lines, expected);
}

#[test]
fn summary_with_tls() {
    let lines = summary_lines(&Context::new(true), &endpoints());
    assert_eq!(lines.len(), 37);
    assert_eq!(lines[3], "\tAPI:\t http://localhost:10001");
    assert_eq!(lines[4], "\tHTTP:\t https://localhost:8088");
    assert_eq!(lines[5], "\tMQTT:\t mqtts://localhost:1883");
    assert_eq!(lines[10], "\tMQTT:\t\t mqtts://localhost:18883");
    assert_eq!(
        lines[32],
        "\tcurl -u 'device1@example-app:hey-rodney' -d '{\"temp\": 42}' -v -H \"Content-Type: application/json\" -X POST -k https://localhost:8088/v1/telemetry"
    );
    assert_eq!(
        lines[35],
        "\tmqtt pub -v -h localhost -p 1883 -u 'device1@example-app' -pw 'hey-rodney' -s -t temp -m '{\"temp\":42}'"
    );
}

#[test]
fn summary_uses_given_prefixes() {
    let ctx = Context { mqtt_prefix: "wss", http_prefix: "h2", tls: false };
    let lines = summary_lines(&ctx, &endpoints());
    assert_eq!(lines[4], "\tHTTP:\t h2://localhost:8088");
    assert_eq!(lines[5], "\tMQTT:\t wss://localhost:1883");
    assert_eq!(lines[32].ends_with("POST http://localhost:8088/v1/telemetry"), true);
}
