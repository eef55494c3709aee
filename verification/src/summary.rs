//! The text shown to the operator once the server has started: where each
//! endpoint listens and how to log in, create a device and send data.

use vstd::prelude::*;
use vstd::string::*;
use crate::decimal::{all_digits, decimal, decimal_value, lemma_decimal_roundtrip, u64_to_decimal};

verus! {

/// How the endpoints are reached: the URL schemes of the MQTT and HTTP
/// endpoints and whether TLS is on.
pub struct Context<'c> {
    pub mqtt_prefix: &'c str,
    pub http_prefix: &'c str,
    pub tls: bool,
}

impl Context<'static> {
    /// The context of a server that runs with or without TLS: `mqtts` and
    /// `https` with TLS, `mqtt` and `http` without.
    pub fn new(tls: bool) -> (ctx: Context<'static>)
        ensures
            ctx.tls == tls,
            ctx.http_prefix@ == (if tls { "https"@ } else { "http"@ }),
            ctx.mqtt_prefix@ == (if tls { "mqtts"@ } else { "mqtt"@ }),
    {
        let http_prefix = if tls { "https" } else { "http" };
        let mqtt_prefix = if tls { "mqtts" } else { "mqtt" };
        Context { mqtt_prefix, http_prefix, tls }
    }
}

/// A network endpoint: host name and port.
pub struct Endpoint {
    pub host: String,
    pub port: u16,
}

/// The endpoints and credentials that the startup text shows.
pub struct Endpoints {
    pub console: Endpoint,
    pub http: Endpoint,
    pub mqtt: Endpoint,
    pub coap: Endpoint,
    pub websocket_integration: Endpoint,
    pub mqtt_integration: Endpoint,
    pub command: Endpoint,
    pub keycloak_user: String,
    pub keycloak_password: String,
}

/// `scheme://host:port`
pub open spec fn url_text(scheme: Seq<char>, e: Endpoint) -> Seq<char> {
    scheme + "://"@ + e.host@ + ":"@ + decimal(e.port as nat)
}

pub open spec fn curl_line(ctx: Context, e: Endpoints) -> Seq<char> {
    "\tcurl -u 'device1@example-app:hey-rodney' -d '{\"temp\": 42}' -v -H \"Content-Type: application/json\" -X POST "@
        + url_text(if ctx.tls { "-k https"@ } else { "http"@ }, e.http) + "/v1/telemetry"@
}

pub open spec fn mqtt_pub_line(ctx: Context, e: Endpoints) -> Seq<char> {
    "\tmqtt pub -v -h "@ + e.mqtt.host@ + " -p "@ + decimal(e.mqtt.port as nat)
        + " -u 'device1@example-app' -pw 'hey-rodney' "@ + (if ctx.tls { "-s"@ } else { ""@ })
        + " -t temp -m '{\"temp\":42}'"@
}

/// The startup text, line by line.
pub open spec fn summary_text(ctx: Context, e: Endpoints) -> Seq<Seq<char>> {
    seq![
        "Drogue Cloud is running!"@,
        ""@,
        "Endpoints:"@,
        "\tAPI:\t "@ + url_text("http"@, e.console),
        "\tHTTP:\t "@ + url_text(ctx.http_prefix@, e.http),
        "\tMQTT:\t "@ + url_text(ctx.mqtt_prefix@, e.mqtt),
        "\tCoAP:\t "@ + url_text("coap"@, e.coap),
        ""@,
        "Integrations:"@,
        "\tWebSocket:\t "@ + url_text("ws"@, e.websocket_integration),
        "\tMQTT:\t\t "@ + url_text(ctx.mqtt_prefix@, e.mqtt_integration),
        ""@,
        "Command:"@,
        "\tHTTP:\t "@ + url_text("http"@, e.command),
        ""@,
        "Keycloak Credentials:"@,
        "\tUser: "@ + e.keycloak_user@,
        "\tPassword: "@ + e.keycloak_password@,
        ""@,
        "Logging in:"@,
        "\tdrg login "@ + url_text("http"@, e.console),
        ""@,
        "Creating an application:"@,
        "\tdrg create app example-app"@,
        ""@,
        "Creating a device:"@,
        "\tdrg create device --application example-app device1 --spec '{\"credentials\":{\"credentials\":[{\"pass\":\"hey-rodney\"}]}}'"@,
        ""@,
        "Streaming telemetry data for an application:"@,
        "\tdrg stream -a example-app"@,
        ""@,
        "Publishing data to the HTTP endpoint:"@,
        curl_line(ctx, e),
        ""@,
        "Publishing data to the MQTT endpoint:"@,
        mqtt_pub_line(ctx, e),
        ""@,
    ]
}

pub open spec fn lines_view(v: Seq<String>) -> Seq<Seq<char>> {
    v.map_values(|s: String| s@)
}

fn text(s: &str) -> (r: String)
    ensures
        r@ == s@,
{
    String::from_str(s)
}

/// `lead` followed by `scheme://host:port`.
fn url_line(lead: &str, scheme: &str, e: &Endpoint) -> (r: String)
    ensures
        r@ == lead@ + url_text(scheme@, *e),
{
    let mut r = String::from_str(lead);
    r.append(scheme);
    r.append("://");
    r.append(e.host.as_str());
    r.append(":");
    let port = u64_to_decimal(e.port as u64);
    r.append(port.as_str());
    proof {
        assert(r@ =~= lead@ + url_text(scheme@, *e));
    }
    r
}

fn credential_line(lead: &str, value: &String) -> (r: String)
    ensures
        r@ == lead@ + value@,
{
    let mut r = String::from_str(lead);
    r.append(value.as_str());
    r
}

fn curl(ctx: &Context, e: &Endpoints) -> (r: String)
    ensures
        r@ == curl_line(*ctx, *e),
{
    let scheme = if ctx.tls { "-k https" } else { "http" };
    let mut r = url_line(
        "\tcurl -u 'device1@example-app:hey-rodney' -d '{\"temp\": 42}' -v -H \"Content-Type: application/json\" -X POST ",
        scheme,
        &e.http,
    );
    r.append("/v1/telemetry");
    r
}

fn mqtt_pub(ctx: &Context, e: &Endpoints) -> (r: String)
    ensures
        r@ == mqtt_pub_line(*ctx, *e),
{
    let mut r = String::from_str("\tmqtt pub -v -h ");
    r.append(e.mqtt.host.as_str());
    r.append(" -p ");
    let port = u64_to_decimal(e.mqtt.port as u64);
    r.append(port.as_str());
    r.append(" -u 'device1@example-app' -pw 'hey-rodney' ");
    r.append(if ctx.tls { "-s" } else { "" });
    r.append(" -t temp -m '{\"temp\":42}'");
    proof {
        assert(r@ =~= mqtt_pub_line(*ctx, *e));
    }
    r
}

/// The text printed once all services have been started, one string per
/// line: the endpoints with their schemes, the Keycloak credentials and
/// example commands for the command-line client, curl and an MQTT client.
pub fn summary_lines(ctx: &Context, e: &Endpoints) -> (v: Vec<String>)
    ensures
        lines_view(v@) == summary_text(*ctx, *e),
{
    let mut v: Vec<String> = Vec::new();
    v.push(text("Drogue Cloud is running!"));
    v.push(text(""));
    v.push(text("Endpoints:"));
    v.push(url_line("\tAPI:\t ", "http", &e.console));
    v.push(url_line("\tHTTP:\t ", ctx.http_prefix, &e.http));
    v.push(url_line("\tMQTT:\t ", ctx.mqtt_prefix, &e.mqtt));
    v.push(url_line("\tCoAP:\t ", "coap", &e.coap));
    v.push(text(""));
    v.push(text("Integrations:"));
    v.push(url_line("\tWebSocket:\t ", "ws", &e.websocket_integration));
    v.push(url_line("\tMQTT:\t\t ", ctx.mqtt_prefix, &e.mqtt_integration));
    v.push(text(""));
    v.push(text("Command:"));
    v.push(url_line("\tHTTP:\t ", "http", &e.command));
    v.push(text(""));
    v.push(text("Keycloak Credentials:"));
    v.push(credential_line("\tUser: ", &e.keycloak_user));
    v.push(credential_line("\tPassword: ", &e.keycloak_password));
    v.push(text(""));
    v.push(text("Logging in:"));
    v.push(url_line("\tdrg login ", "http", &e.console));
    v.push(text(""));
    v.push(text("Creating an application:"));
    v.push(text("\tdrg create app example-app"));
    v.push(text(""));
    v.push(text("Creating a device:"));
    v.push(text("\tdrg create device --application example-app device1 --spec '{\"credentials\":{\"credentials\":[{\"pass\":\"hey-rodney\"}]}}'"));
    v.push(text(""));
    v.push(text("Streaming telemetry data for an application:"));
    v.push(text("\tdrg stream -a example-app"));
    v.push(text(""));
    v.push(text("Publishing data to the HTTP endpoint:"));
    v.push(curl(ctx, e));
    v.push(text(""));
    v.push(text("Publishing data to the MQTT endpoint:"));
    v.push(mqtt_pub(ctx, e));
    v.push(text(""));
    assert(lines_view(v@) =~= summary_text(*ctx, *e));
    v
}

/// With the schemes that [`Context::new`] picks, the startup text advertises
/// TLS consistently: the HTTP and both MQTT addresses use `https`/`mqtts`,
/// the curl example uses `-k https` and the MQTT example passes `-s`,
/// exactly when TLS is on.
pub proof fn lemma_summary_follows_tls(ctx: Context, e: Endpoints)
    requires
        ctx.http_prefix@ == (if ctx.tls { "https"@ } else { "http"@ }),
        ctx.mqtt_prefix@ == (if ctx.tls { "mqtts"@ } else { "mqtt"@ }),
    ensures
        summary_text(ctx, e)[4] == "\tHTTP:\t "@ + url_text(if ctx.tls { "https"@ } else { "http"@ }, e.http),
        summary_text(ctx, e)[5] == "\tMQTT:\t "@ + url_text(if ctx.tls { "mqtts"@ } else { "mqtt"@ }, e.mqtt),
        summary_text(ctx, e)[10] == "\tMQTT:\t\t "@ + url_text(if ctx.tls { "mqtts"@ } else { "mqtt"@ }, e.mqtt_integration),
        summary_text(ctx, e)[32] == curl_line(ctx, e),
        curl_line(ctx, e) == "\tcurl -u 'device1@example-app:hey-rodney' -d '{\"temp\": 42}' -v -H \"Content-Type: application/json\" -X POST "@
            + url_text(if ctx.tls { "-k https"@ } else { "http"@ }, e.http) + "/v1/telemetry"@,
        summary_text(ctx, e)[35] == mqtt_pub_line(ctx, e),
{
}

/// Every address in the startup text ends in the endpoint's port, written
/// in decimal digits that read back as that port.
pub proof fn lemma_url_text_shows_port(scheme: Seq<char>, e: Endpoint)
    ensures
        url_text(scheme, e) == scheme + "://"@ + e.host@ + ":"@ + decimal(e.port as nat),
        decimal_value(decimal(e.port as nat)) == e.port,
        all_digits(decimal(e.port as nat)),
{
    lemma_decimal_roundtrip(e.port as nat);
}

/// `http://host:port` style text of an endpoint, written out.
pub open spec fn address(e: Endpoint) -> Seq<char> {
    e.host@ + ":"@ + decimal(e.port as nat)
}

/// The lines that show the console API, the CoAP endpoint, the WebSocket
/// integration, the command endpoint and the login command keep their fixed
/// schemes whatever the TLS context: the console and the command endpoint
/// are always advertised over plain `http`, so `drg login` always uses
/// `http://` on the console's address, the same address as the API line.
pub proof fn lemma_fixed_scheme_lines(ctx: Context, other: Context, e: Endpoints)
    ensures
        summary_text(ctx, e)[3] == "\tAPI:\t http://"@ + address(e.console),
        summary_text(ctx, e)[6] == "\tCoAP:\t coap://"@ + address(e.coap),
        summary_text(ctx, e)[9] == "\tWebSocket:\t ws://"@ + address(e.websocket_integration),
        summary_text(ctx, e)[13] == "\tHTTP:\t http://"@ + address(e.command),
        summary_text(ctx, e)[20] == "\tdrg login http://"@ + address(e.console),
        summary_text(ctx, e)[3] == summary_text(other, e)[3],
        summary_text(ctx, e)[6] == summary_text(other, e)[6],
        summary_text(ctx, e)[9] == summary_text(other, e)[9],
        summary_text(ctx, e)[13] == summary_text(other, e)[13],
        summary_text(ctx, e)[20] == summary_text(other, e)[20],
{
    reveal_strlit("\tAPI:\t ");
    reveal_strlit("\tAPI:\t http://");
    reveal_strlit("\tCoAP:\t ");
    reveal_strlit("\tCoAP:\t coap://");
    reveal_strlit("\tWebSocket:\t ");
    reveal_strlit("\tWebSocket:\t ws://");
    reveal_strlit("\tHTTP:\t ");
    reveal_strlit("\tHTTP:\t http://");
    reveal_strlit("\tdrg login ");
    reveal_strlit("\tdrg login http://");
    reveal_strlit("http");
    reveal_strlit("coap");
    reveal_strlit("ws");
    reveal_strlit("://");
    assert(summary_text(ctx, e)[3] =~= "\tAPI:\t http://"@ + address(e.console));
    assert(summary_text(ctx, e)[6] =~= "\tCoAP:\t coap://"@ + address(e.coap));
    assert(summary_text(ctx, e)[9] =~= "\tWebSocket:\t ws://"@ + address(e.websocket_integration));
    assert(summary_text(ctx, e)[13] =~= "\tHTTP:\t http://"@ + address(e.command));
    assert(summary_text(ctx, e)[20] =~= "\tdrg login http://"@ + address(e.console));
}

} // verus!
