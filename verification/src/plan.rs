//! What the `run` subcommand of the single-process server decides from its
//! arguments: which services start, on which runtime, with which TLS,
//! Kafka, OAuth and URL settings.

use vstd::prelude::*;
use vstd::string::*;
use crate::decimal::{decimal, u64_to_decimal};
use crate::external::{parse_url, url_parse_result};
use crate::cli::server_run_args_view;

verus! {

/// A service that the server can run in its process.
#[derive(Clone, Copy, Debug, PartialEq, Eq, Structural)]
pub enum Service {
    DeviceRegistry,
    DeviceState,
    UserAuthentication,
    Authentication,
    ConsoleBackend,
    HttpEndpoint,
    WebsocketIntegration,
    CommandEndpoint,
    MqttEndpoint,
    MqttIntegration,
    CoapEndpoint,
}

/// The runtime (and thread) that hosts a service.
#[derive(Clone, Copy, Debug, PartialEq, Eq, Structural)]
pub enum Runtime {
    /// The shared actix runtime thread.
    Actix,
    /// The shared ntex runtime thread.
    Ntex,
    /// A thread of its own with an actix runtime, for CoAP.
    Coap,
}

/// The arguments of the `run` subcommand that the plan depends on.
pub struct RunFlags {
    pub enable_all: bool,
    pub enable_console_backend: bool,
    pub enable_device_registry: bool,
    pub enable_device_state: bool,
    pub enable_user_authentication_service: bool,
    pub enable_authentication_service: bool,
    pub enable_coap_endpoint: bool,
    pub enable_http_endpoint: bool,
    pub enable_mqtt_endpoint: bool,
    pub enable_mqtt_integration: bool,
    pub enable_websocket_integration: bool,
    pub enable_command_endpoint: bool,
    /// The value of `--server-cert`, if given.
    pub server_cert: Option<String>,
    /// The value of `--server-key`, if given.
    pub server_key: Option<String>,
}

/// The switch of the service's own `--enable-...` flag.
pub open spec fn own_flag(f: RunFlags, s: Service) -> bool {
    match s {
        Service::DeviceRegistry => f.enable_device_registry,
        Service::DeviceState => f.enable_device_state,
        Service::UserAuthentication => f.enable_user_authentication_service,
        Service::Authentication => f.enable_authentication_service,
        Service::ConsoleBackend => f.enable_console_backend,
        Service::HttpEndpoint => f.enable_http_endpoint,
        Service::WebsocketIntegration => f.enable_websocket_integration,
        Service::CommandEndpoint => f.enable_command_endpoint,
        Service::MqttEndpoint => f.enable_mqtt_endpoint,
        Service::MqttIntegration => f.enable_mqtt_integration,
        Service::CoapEndpoint => f.enable_coap_endpoint,
    }
}

/// A service runs when its own flag or `--enable-all` is given.
pub open spec fn service_enabled(f: RunFlags, s: Service) -> bool {
    own_flag(f, s) || f.enable_all
}

/// The order in which the services are started.
pub open spec fn start_order() -> Seq<Service> {
    seq![
        Service::DeviceRegistry,
        Service::DeviceState,
        Service::UserAuthentication,
        Service::Authentication,
        Service::ConsoleBackend,
        Service::HttpEndpoint,
        Service::WebsocketIntegration,
        Service::CommandEndpoint,
        Service::MqttEndpoint,
        Service::MqttIntegration,
        Service::CoapEndpoint,
    ]
}

/// The services that start, in start order.
pub open spec fn enabled_in_order(f: RunFlags) -> Seq<Service> {
    start_order().filter(|s: Service| service_enabled(f, s))
}

/// The name of the flag that enables a service.
pub open spec fn enable_flag_name(s: Service) -> Seq<char> {
    match s {
        Service::DeviceRegistry => "enable-device-registry"@,
        Service::DeviceState => "enable-device-state"@,
        Service::UserAuthentication => "enable-user-authentication-service"@,
        Service::Authentication => "enable-authentication-service"@,
        Service::ConsoleBackend => "enable-console-backend"@,
        Service::HttpEndpoint => "enable-http-endpoint"@,
        Service::WebsocketIntegration => "enable-websocket-integration"@,
        Service::CommandEndpoint => "enable-command-endpoint"@,
        Service::MqttEndpoint => "enable-mqtt-endpoint"@,
        Service::MqttIntegration => "enable-mqtt-integration"@,
        Service::CoapEndpoint => "enable-coap-endpoint"@,
    }
}

pub open spec fn runtime_of(s: Service) -> Runtime {
    match s {
        Service::MqttEndpoint | Service::MqttIntegration => Runtime::Ntex,
        Service::CoapEndpoint => Runtime::Coap,
        _ => Runtime::Actix,
    }
}

pub open spec fn spec_metrics_namespace(s: Service) -> Option<Seq<char>> {
    match s {
        Service::DeviceRegistry => Some("device_management_service"@),
        Service::DeviceState => Some("device_state_service"@),
        Service::UserAuthentication => Some("user_authentication_service"@),
        Service::Authentication => Some("authentication_service"@),
        Service::WebsocketIntegration => Some("websocket_integration"@),
        Service::CommandEndpoint => Some("command_endpoint"@),
        _ => None,
    }
}

pub open spec fn spec_enabling_message(s: Service) -> Seq<char> {
    match s {
        Service::DeviceRegistry => "Enabling device registry"@,
        Service::DeviceState => "Enabling device state service"@,
        Service::UserAuthentication => "Enabling user authentication service"@,
        Service::Authentication => "Enabling device authentication service"@,
        Service::ConsoleBackend => "Enabling console backend service"@,
        Service::HttpEndpoint => "Enabling HTTP endpoint"@,
        Service::WebsocketIntegration => "Enabling Websocket integration"@,
        Service::CommandEndpoint => "Enabling Command endpoint"@,
        Service::MqttEndpoint => "Enabling MQTT endpoint"@,
        Service::MqttIntegration => "Enabling MQTT integration"@,
        Service::CoapEndpoint => "Enabling CoAP endpoint"@,
    }
}

pub open spec fn spec_consumer_group(s: Service) -> Option<Seq<char>> {
    match s {
        Service::HttpEndpoint => Some("http_endpoint"@),
        Service::MqttEndpoint => Some("mqtt_endpoint"@),
        Service::CoapEndpoint => Some("coap_endpoint"@),
        _ => None,
    }
}

/// All services, in start order.
pub fn all_services() -> (v: Vec<Service>)
    ensures
        v@ == start_order(),
{
    let v = vec![
        Service::DeviceRegistry,
        Service::DeviceState,
        Service::UserAuthentication,
        Service::Authentication,
        Service::ConsoleBackend,
        Service::HttpEndpoint,
        Service::WebsocketIntegration,
        Service::CommandEndpoint,
        Service::MqttEndpoint,
        Service::MqttIntegration,
        Service::CoapEndpoint,
    ];
    assert(v@ =~= start_order());
    v
}

impl Service {
    /// The flag that enables this service on the command line.
    pub fn enable_flag(self) -> (name: &'static str)
        ensures
            name@ == enable_flag_name(self),
    {
        match self {
            Service::DeviceRegistry => "enable-device-registry",
            Service::DeviceState => "enable-device-state",
            Service::UserAuthentication => "enable-user-authentication-service",
            Service::Authentication => "enable-authentication-service",
            Service::ConsoleBackend => "enable-console-backend",
            Service::HttpEndpoint => "enable-http-endpoint",
            Service::WebsocketIntegration => "enable-websocket-integration",
            Service::CommandEndpoint => "enable-command-endpoint",
            Service::MqttEndpoint => "enable-mqtt-endpoint",
            Service::MqttIntegration => "enable-mqtt-integration",
            Service::CoapEndpoint => "enable-coap-endpoint",
        }
    }

    /// The runtime that hosts this service: the MQTT endpoint and
    /// integration run on ntex, CoAP on a thread of its own, the rest on the
    /// shared actix runtime.
    pub fn runtime(self) -> (r: Runtime)
        ensures
            r == runtime_of(self),
    {
        match self {
            Service::MqttEndpoint | Service::MqttIntegration => Runtime::Ntex,
            Service::CoapEndpoint => Runtime::Coap,
            _ => Runtime::Actix,
        }
    }

    /// The metrics namespace of the service's HTTP server, where it sets one.
    pub fn metrics_namespace(self) -> (ns: Option<&'static str>)
        ensures
            match ns {
                Some(n) => spec_metrics_namespace(self) == Some(n@),
                None => spec_metrics_namespace(self) is None,
            },
    {
        match self {
            Service::DeviceRegistry => Some("device_management_service"),
            Service::DeviceState => Some("device_state_service"),
            Service::UserAuthentication => Some("user_authentication_service"),
            Service::Authentication => Some("authentication_service"),
            Service::WebsocketIntegration => Some("websocket_integration"),
            Service::CommandEndpoint => Some("command_endpoint"),
            _ => None,
        }
    }

    /// The line logged when the service is enabled.
    pub fn enabling_message(self) -> (m: &'static str)
        ensures
            m@ == spec_enabling_message(self),
    {
        match self {
            Service::DeviceRegistry => "Enabling device registry",
            Service::DeviceState => "Enabling device state service",
            Service::UserAuthentication => "Enabling user authentication service",
            Service::Authentication => "Enabling device authentication service",
            Service::ConsoleBackend => "Enabling console backend service",
            Service::HttpEndpoint => "Enabling HTTP endpoint",
            Service::WebsocketIntegration => "Enabling Websocket integration",
            Service::CommandEndpoint => "Enabling Command endpoint",
            Service::MqttEndpoint => "Enabling MQTT endpoint",
            Service::MqttIntegration => "Enabling MQTT integration",
            Service::CoapEndpoint => "Enabling CoAP endpoint",
        }
    }

    /// The Kafka topic to which the service sends registry events: only the
    /// device registry sends them, to `registry`.
    pub fn event_topic(self) -> (t: Option<&'static str>)
        ensures
            match t {
                Some(n) => self == Service::DeviceRegistry && n@ == "registry"@,
                None => self != Service::DeviceRegistry,
            },
    {
        match self {
            Service::DeviceRegistry => Some("registry"),
            _ => None,
        }
    }

    /// The Kafka consumer group of the service's command source: the HTTP,
    /// MQTT and CoAP endpoints each read commands under their own group.
    pub fn consumer_group(self) -> (g: Option<&'static str>)
        ensures
            match g {
                Some(n) => spec_consumer_group(self) == Some(n@),
                None => spec_consumer_group(self) is None,
            },
    {
        match self {
            Service::HttpEndpoint => Some("http_endpoint"),
            Service::MqttEndpoint => Some("mqtt_endpoint"),
            Service::CoapEndpoint => Some("coap_endpoint"),
            _ => None,
        }
    }
}

impl RunFlags {
    /// Whether the service runs: its own flag or `--enable-all` is given.
    pub fn is_enabled(&self, s: Service) -> (b: bool)
        ensures
            b == service_enabled(*self, s),
    {
        let own = match s {
            Service::DeviceRegistry => self.enable_device_registry,
            Service::DeviceState => self.enable_device_state,
            Service::UserAuthentication => self.enable_user_authentication_service,
            Service::Authentication => self.enable_authentication_service,
            Service::ConsoleBackend => self.enable_console_backend,
            Service::HttpEndpoint => self.enable_http_endpoint,
            Service::WebsocketIntegration => self.enable_websocket_integration,
            Service::CommandEndpoint => self.enable_command_endpoint,
            Service::MqttEndpoint => self.enable_mqtt_endpoint,
            Service::MqttIntegration => self.enable_mqtt_integration,
            Service::CoapEndpoint => self.enable_coap_endpoint,
        };
        own || self.enable_all
    }

    /// The services that start, in the order in which they are started.
    pub fn enabled_services(&self) -> (v: Vec<Service>)
        ensures
            v@ == enabled_in_order(*self),
    {
        let order = all_services();
        let ghost pred = |s: Service| service_enabled(*self, s);
        let mut v: Vec<Service> = Vec::new();
        let mut i: usize = 0;
        while i < order.len()
            invariant
                i <= order.len(),
                order@ == start_order(),
                pred == (|s: Service| service_enabled(*self, s)),
                v@ == start_order().take(i as int).filter(pred),
            decreases order.len() - i,
        {
            let s = order[i];
            proof {
                reveal(Seq::filter);
                assert(start_order().take(i + 1).drop_last() =~= start_order().take(i as int));
            }
            if self.is_enabled(s) {
                v.push(s);
            }
            i = i + 1;
        }
        assert(start_order().take(order.len() as int) =~= start_order());
        v
    }

    /// TLS is on when both a server certificate and a server key are given.
    pub fn tls(&self) -> (b: bool)
        ensures
            b == (self.server_cert is Some && self.server_key is Some),
    {
        self.server_cert.is_some() && self.server_key.is_some()
    }

    /// The TLS settings of an endpoint that serves with the server's
    /// certificate and key.
    pub fn endpoint_tls(&self) -> (t: EndpointTls)
        ensures
            t@ == spec_endpoint_tls(*self),
    {
        let cert_bundle_file = clone_opt(&self.server_cert);
        let key_file = clone_opt(&self.server_key);
        let disable_tls = !(key_file.is_some() && cert_bundle_file.is_some());
        EndpointTls { disable_tls, cert_bundle_file, key_file }
    }

    /// The runtime threads that are started: the actix and ntex threads
    /// always, the CoAP thread only when the CoAP endpoint is enabled.
    pub fn runtime_threads(&self) -> (v: Vec<Runtime>)
        ensures
            v@ == (if service_enabled(*self, Service::CoapEndpoint) {
                seq![Runtime::Actix, Runtime::Ntex, Runtime::Coap]
            } else {
                seq![Runtime::Actix, Runtime::Ntex]
            }),
    {
        let mut v = vec![Runtime::Actix, Runtime::Ntex];
        if self.is_enabled(Service::CoapEndpoint) {
            v.push(Runtime::Coap);
        }
        assert(v@ =~= (if service_enabled(*self, Service::CoapEndpoint) {
            seq![Runtime::Actix, Runtime::Ntex, Runtime::Coap]
        } else {
            seq![Runtime::Actix, Runtime::Ntex]
        }));
        v
    }
}

pub open spec fn opt_str_view(o: Option<String>) -> Option<Seq<char>> {
    match o {
        Some(s) => Some(s@),
        None => None,
    }
}

fn clone_opt(o: &Option<String>) -> (r: Option<String>)
    ensures
        opt_str_view(r) == opt_str_view(*o),
{
    match o {
        Some(s) => Some(s.clone()),
        None => None,
    }
}

/// TLS settings of a network endpoint.
pub struct EndpointTls {
    pub disable_tls: bool,
    pub cert_bundle_file: Option<String>,
    pub key_file: Option<String>,
}

pub struct EndpointTlsView {
    pub disable_tls: bool,
    pub cert_bundle_file: Option<Seq<char>>,
    pub key_file: Option<Seq<char>>,
}

impl View for EndpointTls {
    type V = EndpointTlsView;

    open spec fn view(&self) -> EndpointTlsView {
        EndpointTlsView {
            disable_tls: self.disable_tls,
            cert_bundle_file: opt_str_view(self.cert_bundle_file),
            key_file: opt_str_view(self.key_file),
        }
    }
}

/// TLS is disabled unless both files are given; the files are passed on as
/// given.
pub open spec fn spec_endpoint_tls(f: RunFlags) -> EndpointTlsView {
    EndpointTlsView {
        disable_tls: !(f.server_key is Some && f.server_cert is Some),
        cert_bundle_file: opt_str_view(f.server_cert),
        key_file: opt_str_view(f.server_key),
    }
}

impl EndpointTls {
    pub fn duplicate(&self) -> (t: EndpointTls)
        ensures
            t@ == self@,
    {
        EndpointTls {
            disable_tls: self.disable_tls,
            cert_bundle_file: clone_opt(&self.cert_bundle_file),
            key_file: clone_opt(&self.key_file),
        }
    }
}

/// The HTTP server settings of a service.
pub struct HttpSettings {
    pub bind_addr: String,
    pub workers: usize,
    pub metrics_namespace: Option<String>,
    /// TLS settings, for the services that serve the server's certificate;
    /// the others keep the HTTP server's defaults.
    pub tls: Option<EndpointTls>,
}

/// The services whose HTTP server serves the server's certificate: the HTTP
/// endpoint and the WebSocket integration.
pub open spec fn serves_http_tls(s: Service) -> bool {
    s == Service::HttpEndpoint || s == Service::WebsocketIntegration
}

/// The services that run an HTTP server (all but MQTT and CoAP).
pub open spec fn has_http_server(s: Service) -> bool {
    runtime_of(s) == Runtime::Actix
}

impl Service {
    /// The settings of the service's HTTP server, bound to `bind_addr` with a
    /// single worker; `None` for the services that run no HTTP server.
    pub fn http_settings(self, bind_addr: String, tls: &EndpointTls) -> (h: Option<HttpSettings>)
        ensures
            h is Some <==> has_http_server(self),
            h matches Some(h) ==> {
                &&& h.bind_addr@ == bind_addr@
                &&& h.workers == 1
                &&& opt_str_view(h.metrics_namespace) == spec_metrics_namespace(self)
                &&& (h.tls is Some <==> serves_http_tls(self))
                &&& (h.tls matches Some(t) ==> t@ == tls@)
            },
    {
        if self.runtime() != Runtime::Actix {
            return None;
        }
        let metrics_namespace = match self.metrics_namespace() {
            Some(n) => Some(String::from_str(n)),
            None => None,
        };
        let own_tls = match self {
            Service::HttpEndpoint | Service::WebsocketIntegration => Some(tls.duplicate()),
            _ => None,
        };
        Some(HttpSettings { bind_addr, workers: 1, metrics_namespace, tls: own_tls })
    }
}

/// The fixed settings with which a service is started. A `None` marks a
/// setting that the service does not have.
pub struct ServiceSettings {
    /// The instance under which the service keeps its data.
    pub instance: Option<String>,
    /// Whether the service accepts access tokens besides OAuth tokens.
    pub enable_access_token: Option<bool>,
    /// Whether the service waits for its Kafka topics to be ready.
    pub check_kafka_topic_ready: Option<bool>,
}

pub struct ServiceSettingsView {
    pub instance: Option<Seq<char>>,
    pub enable_access_token: Option<bool>,
    pub check_kafka_topic_ready: Option<bool>,
}

impl View for ServiceSettings {
    type V = ServiceSettingsView;

    open spec fn view(&self) -> ServiceSettingsView {
        ServiceSettingsView {
            instance: opt_str_view(self.instance),
            enable_access_token: self.enable_access_token,
            check_kafka_topic_ready: self.check_kafka_topic_ready,
        }
    }
}

/// The device registry keeps its data under the database's name; the
/// endpoints, the device state service and the MQTT integration under
/// `drogue`. The registry, device state service, console backend, WebSocket
/// integration and command endpoint accept access tokens. No service waits
/// for its Kafka topics.
pub open spec fn spec_service_settings(s: Service, database: Seq<char>) -> ServiceSettingsView {
    match s {
        Service::DeviceRegistry => ServiceSettingsView {
            instance: Some(database),
            enable_access_token: Some(true),
            check_kafka_topic_ready: None,
        },
        Service::DeviceState => ServiceSettingsView {
            instance: Some("drogue"@),
            enable_access_token: Some(true),
            check_kafka_topic_ready: Some(false),
        },
        Service::UserAuthentication | Service::Authentication => ServiceSettingsView {
            instance: None,
            enable_access_token: None,
            check_kafka_topic_ready: None,
        },
        Service::ConsoleBackend | Service::WebsocketIntegration => ServiceSettingsView {
            instance: None,
            enable_access_token: Some(true),
            check_kafka_topic_ready: None,
        },
        Service::CommandEndpoint => ServiceSettingsView {
            instance: Some("drogue"@),
            enable_access_token: Some(true),
            check_kafka_topic_ready: Some(false),
        },
        Service::HttpEndpoint | Service::MqttEndpoint | Service::MqttIntegration | Service::CoapEndpoint =>
            ServiceSettingsView {
            instance: Some("drogue"@),
            enable_access_token: None,
            check_kafka_topic_ready: Some(false),
        },
    }
}

impl Service {
    /// The fixed settings of the service; `database` is the name of the
    /// registry's database.
    pub fn settings(self, database: &str) -> (r: ServiceSettings)
        ensures
            r@ == spec_service_settings(self, database@),
    {
        match self {
            Service::DeviceRegistry => ServiceSettings {
                instance: Some(String::from_str(database)),
                enable_access_token: Some(true),
                check_kafka_topic_ready: None,
            },
            Service::DeviceState => ServiceSettings {
                instance: Some(String::from_str("drogue")),
                enable_access_token: Some(true),
                check_kafka_topic_ready: Some(false),
            },
            Service::UserAuthentication | Service::Authentication => ServiceSettings {
                instance: None,
                enable_access_token: None,
                check_kafka_topic_ready: None,
            },
            Service::ConsoleBackend | Service::WebsocketIntegration => ServiceSettings {
                instance: None,
                enable_access_token: Some(true),
                check_kafka_topic_ready: None,
            },
            Service::CommandEndpoint => ServiceSettings {
                instance: Some(String::from_str("drogue")),
                enable_access_token: Some(true),
                check_kafka_topic_ready: Some(false),
            },
            Service::HttpEndpoint | Service::MqttEndpoint | Service::MqttIntegration | Service::CoapEndpoint =>
                ServiceSettings {
                instance: Some(String::from_str("drogue")),
                enable_access_token: None,
                check_kafka_topic_ready: Some(false),
            },
        }
    }
}

/// How long the device state service keeps a session without a ping, in
/// seconds.
pub fn device_state_session_timeout_secs() -> (t: u64)
    ensures
        t == 10,
{
    10
}

/// How long the MQTT endpoint's device state controller waits before it
/// starts, in seconds.
pub fn state_init_delay_secs() -> (t: u64)
    ensures
        t == 2,
{
    2
}

/// The console backend's own settings.
pub struct ConsoleSettings {
    pub enable_kube: bool,
    pub disable_account_url: bool,
    pub scopes: String,
    /// The client id of the console's token configuration.
    pub token_client_id: String,
}

/// The console backend runs without Kubernetes, shows the account URL, asks
/// for the `openid profile email` scopes and obtains tokens as `drogue`.
pub fn console_settings() -> (c: ConsoleSettings)
    ensures
        !c.enable_kube,
        !c.disable_account_url,
        c.scopes@ == "openid profile email"@,
        c.token_client_id@ == "drogue"@,
{
    ConsoleSettings {
        enable_kube: false,
        disable_account_url: false,
        scopes: String::from_str("openid profile email"),
        token_client_id: String::from_str(console_client_id()),
    }
}

/// The MQTT integration's own switches.
pub struct MqttIntegrationSettings {
    pub enable_username_password_auth: bool,
    pub disable_api_keys: bool,
}

/// The MQTT integration accepts API keys but no username and password.
pub fn mqtt_integration_settings() -> (m: MqttIntegrationSettings)
    ensures
        !m.enable_username_password_auth,
        !m.disable_api_keys,
{
    MqttIntegrationSettings { enable_username_password_auth: false, disable_api_keys: false }
}

/// One listener of an MQTT server.
pub struct MqttListener {
    pub bind_addr: String,
    pub workers: usize,
    pub disable_client_certificates: bool,
    pub tls: EndpointTls,
}

/// The two listeners of an MQTT server: the plain one on `bind_addr`, which
/// asks clients for certificates, and the WebSocket one on `ws_bind_addr`,
/// which does not (browsers cannot present them). Both share the TLS
/// settings.
pub fn mqtt_listeners(tls: EndpointTls, bind_addr: String, ws_bind_addr: String) -> (r: (MqttListener, MqttListener))
    ensures
        r.0.bind_addr@ == bind_addr@,
        r.0.workers == 1 && r.1.workers == 1,
        !r.0.disable_client_certificates,
        r.0.tls@ == tls@,
        r.1.bind_addr@ == ws_bind_addr@,
        r.1.disable_client_certificates,
        r.1.tls@ == tls@,
{
    let ws_tls = tls.duplicate();
    let plain = MqttListener { bind_addr, workers: 1, disable_client_certificates: false, tls };
    let ws = MqttListener { bind_addr: ws_bind_addr, workers: 1, disable_client_certificates: true, tls: ws_tls };
    (plain, ws)
}

/// Where an endpoint reads device commands from Kafka.
pub struct CommandSource {
    pub topic: String,
    pub consumer_group: String,
}

/// Commands are read from the `iot-commands` topic under the given group.
pub fn command_source(consumer_group: &str) -> (c: CommandSource)
    ensures
        c.topic@ == "iot-commands"@,
        c.consumer_group@ == consumer_group@,
{
    CommandSource {
        topic: String::from_str("iot-commands"),
        consumer_group: String::from_str(consumer_group),
    }
}

/// An OAuth client registered with the authenticator.
pub struct OAuthClient {
    pub name: String,
    pub client_id: String,
    pub client_secret: String,
    pub scopes: String,
    /// The client's own issuer URL; `None` takes the global one.
    pub issuer_url: Option<String>,
    pub tls_insecure: bool,
}

pub open spec fn oauth_client_ok(c: OAuthClient, id: Seq<char>, secret: Seq<char>, insecure: bool) -> bool {
    &&& c.name@ == id
    &&& c.client_id@ == id
    &&& c.client_secret@ == secret
    &&& c.scopes@ == "openid profile email"@
    &&& c.issuer_url is None
    &&& c.tls_insecure == insecure
}

fn oauth_client(id: &str, secret: &str, tls_insecure: bool) -> (c: OAuthClient)
    ensures
        oauth_client_ok(c, id@, secret@, tls_insecure),
{
    OAuthClient {
        name: String::from_str(id),
        client_id: String::from_str(id),
        client_secret: String::from_str(secret),
        scopes: String::from_str("openid profile email"),
        issuer_url: None,
        tls_insecure,
    }
}

/// The OAuth clients: `drogue` (for the console and users) and `services`
/// (for service-to-service calls), both with the service secret and the
/// `openid profile email` scopes.
pub fn oauth_clients(secret: &str, tls_insecure: bool) -> (v: Vec<OAuthClient>)
    ensures
        v.len() == 2,
        oauth_client_ok(v[0], "drogue"@, secret@, tls_insecure),
        oauth_client_ok(v[1], "services"@, secret@, tls_insecure),
{
    let mut v = Vec::new();
    v.push(oauth_client("drogue", secret, tls_insecure));
    v.push(oauth_client("services", secret, tls_insecure));
    v
}

/// The client id with which services obtain tokens.
pub fn service_client_id() -> (s: &'static str)
    ensures
        s@ == "services"@,
{
    "services"
}

/// The client id with which the console backend obtains tokens.
pub fn console_client_id() -> (s: &'static str)
    ensures
        s@ == "drogue"@,
{
    "drogue"
}

/// The URL text `http://host:port`.
pub open spec fn http_url_text(host: Seq<char>, port: nat) -> Seq<char> {
    "http://"@ + host + ":"@ + decimal(port)
}

/// The URL text `http://host:port` of a service.
pub fn http_url(host: &str, port: u16) -> (s: String)
    ensures
        s@ == http_url_text(host@, port as nat),
{
    let mut s = String::from_str("http://");
    s.append(host);
    s.append(":");
    let p = u64_to_decimal(port as u64);
    s.append(p.as_str());
    s
}

/// The URL text `http://address` of a service whose address is given as
/// `host:port` already.
pub fn http_address_url(address: &str) -> (s: String)
    ensures
        s@ == "http://"@ + address@,
{
    let mut s = String::from_str("http://");
    s.append(address);
    s
}

/// Why a startup plan cannot be carried out.
#[derive(Debug)]
pub enum PlanError {
    /// The text is not an absolute URL.
    InvalidUrl(String),
}

/// Parses the URL text of a service: the URL that the parser makes of the
/// text, or, where the parser rejects it, an error that holds the text.
pub fn parse_service_url(text: &str) -> (r: Result<url::Url, PlanError>)
    ensures
        r is Ok <==> url_parse_result(text@) is Ok,
        r matches Ok(u) ==> url_parse_result(text@) == Ok::<url::Url, url::ParseError>(u),
        match r {
            Err(PlanError::InvalidUrl(t)) => t@ == text@,
            _ => true,
        },
{
    match parse_url(text) {
        Ok(u) => Ok(u),
        Err(_) => Err(PlanError::InvalidUrl(String::from_str(text))),
    }
}

/// The parsed URL `http://host:port` of a service.
pub fn service_url(host: &str, port: u16) -> (r: Result<url::Url, PlanError>)
    ensures
        r is Ok <==> url_parse_result(http_url_text(host@, port as nat)) is Ok,
        r matches Ok(u) ==> url_parse_result(http_url_text(host@, port as nat)) == Ok::<url::Url, url::ParseError>(u),
        match r {
            Err(PlanError::InvalidUrl(t)) => t@ == http_url_text(host@, port as nat),
            _ => true,
        },
{
    let text = http_url(host, port);
    parse_service_url(text.as_str())
}

/// The log verbosity: one level above the default per `-v`.
pub fn verbosity(occurrences: u64) -> (v: u64)
    requires
        occurrences < u64::MAX,
    ensures
        v == occurrences + 1,
{
    occurrences + 1
}

/// Whether the services stopped so soon (under two seconds after startup,
/// counted in whole seconds elapsed) that probably none was enabled.
pub fn exited_quickly(elapsed_secs: u64) -> (b: bool)
    ensures
        b == (elapsed_secs < 2),
{
    elapsed_secs < 2
}

/// The warning logged after the services stopped, if they stopped quickly.
pub fn exit_warning(elapsed_secs: u64) -> (w: Option<&'static str>)
    ensures
        w is Some <==> elapsed_secs < 2,
        w matches Some(m) ==> m@ == "Server exited quickly. Maybe no services had been enabled. You can enable services using --enable-* or enable all using --enable-all."@,
{
    if exited_quickly(elapsed_secs) {
        Some("Server exited quickly. Maybe no services had been enabled. You can enable services using --enable-* or enable all using --enable-all.")
    } else {
        None
    }
}

/// `--enable-all` starts every service, in start order.
pub proof fn lemma_enable_all_starts_everything(f: RunFlags)
    requires
        f.enable_all,
    ensures
        enabled_in_order(f) == start_order(),
{
    let pred = |s: Service| service_enabled(f, s);
    lemma_filter_all(start_order(), pred);
}

proof fn lemma_filter_all(s: Seq<Service>, pred: spec_fn(Service) -> bool)
    requires
        forall|x: Service| #[trigger] pred(x),
    ensures
        s.filter(pred) == s,
    decreases s.len(),
{
    reveal(Seq::filter);
    if s.len() > 0 {
        lemma_filter_all(s.drop_last(), pred);
        assert(s.drop_last().push(s.last()) =~= s);
    }
}

proof fn lemma_filter_none(s: Seq<Service>, pred: spec_fn(Service) -> bool)
    requires
        forall|x: Service| !#[trigger] pred(x),
    ensures
        s.filter(pred).len() == 0,
    decreases s.len(),
{
    reveal(Seq::filter);
    if s.len() > 0 {
        lemma_filter_none(s.drop_last(), pred);
    }
}

proof fn lemma_filter_distinct(s: Seq<Service>, pred: spec_fn(Service) -> bool)
    requires
        s.no_duplicates(),
    ensures
        s.filter(pred).no_duplicates(),
    decreases s.len(),
{
    reveal(Seq::filter);
    if s.len() > 0 {
        let rest = s.drop_last();
        assert(rest.no_duplicates());
        lemma_filter_distinct(rest, pred);
        if pred(s.last()) {
            let r = rest.filter(pred);
            if r.contains(s.last()) {
                rest.lemma_filter_contains_rev(pred, s.last());
                let k = choose|k: int| 0 <= k < rest.len() && rest[k] == s.last();
                assert(s[k] == s[s.len() - 1]);
            }
            assert(r.push(s.last()).no_duplicates()) by {
                assert forall|i: int, j: int|
                    0 <= i < r.len() + 1 && 0 <= j < r.len() + 1 && i != j implies
                    r.push(s.last())[i] != r.push(s.last())[j] by {
                    if i == r.len() {
                        assert(r.contains(r[j]));
                    } else if j == r.len() {
                        assert(r.contains(r[i]));
                    }
                }
            }
        }
    }
}

/// Without `--enable-all` and without any `--enable-...` flag, no service
/// starts.
pub proof fn lemma_no_flag_starts_nothing(f: RunFlags)
    requires
        !f.enable_all,
        forall|s: Service| !#[trigger] own_flag(f, s),
    ensures
        enabled_in_order(f).len() == 0,
{
    let pred = |s: Service| service_enabled(f, s);
    assert forall|x: Service| !#[trigger] pred(x) by {
        assert(!own_flag(f, x));
    }
    lemma_filter_none(start_order(), pred);
}

/// A service is among the started services exactly when it is enabled,
/// and no service is started twice.
pub proof fn lemma_started_iff_enabled(f: RunFlags, s: Service)
    ensures
        enabled_in_order(f).contains(s) <==> service_enabled(f, s),
        enabled_in_order(f).no_duplicates(),
{
    let pred = |x: Service| service_enabled(f, x);
    broadcast use vstd::seq_lib::group_filter_ensures;
    let order = start_order();
    if service_enabled(f, s) {
        let i: int = match s {
            Service::DeviceRegistry => 0,
            Service::DeviceState => 1,
            Service::UserAuthentication => 2,
            Service::Authentication => 3,
            Service::ConsoleBackend => 4,
            Service::HttpEndpoint => 5,
            Service::WebsocketIntegration => 6,
            Service::CommandEndpoint => 7,
            Service::MqttEndpoint => 8,
            Service::MqttIntegration => 9,
            Service::CoapEndpoint => 10,
        };
        assert(order[i] == s);
        assert(pred(order[i]));
    }
    if enabled_in_order(f).contains(s) {
        let k = choose|k: int| 0 <= k < enabled_in_order(f).len() && enabled_in_order(f)[k] == s;
        assert(pred(enabled_in_order(f)[k]));
    }
    assert(order.no_duplicates());
    lemma_filter_distinct(order, pred);
}

/// The TLS settings handed to the endpoints disable TLS exactly when the
/// server as a whole runs without TLS (no certificate or no key given), and
/// carry the certificate given by `--server-cert` and the key given by
/// `--server-key`.
pub proof fn lemma_endpoint_tls_follows_server_tls(f: RunFlags)
    ensures
        spec_endpoint_tls(f).disable_tls == !(f.server_cert is Some && f.server_key is Some),
        spec_endpoint_tls(f).cert_bundle_file == opt_str_view(f.server_cert),
        spec_endpoint_tls(f).key_file == opt_str_view(f.server_key),
{
}

/// The flag that enables a service is a switch of the `run` subcommand.
pub proof fn lemma_enable_flags_are_run_switches(s: Service)
    ensures
        exists|i: int|
            0 <= i < server_run_args_view().len()
            && #[trigger] server_run_args_view()[i].name == enable_flag_name(s)
            && !server_run_args_view()[i].takes_value,
{
    let args = server_run_args_view();
    let i: int = match s {
        Service::ConsoleBackend => 3,
        Service::DeviceRegistry => 4,
        Service::DeviceState => 5,
        Service::UserAuthentication => 6,
        Service::Authentication => 7,
        Service::CoapEndpoint => 8,
        Service::HttpEndpoint => 9,
        Service::MqttEndpoint => 10,
        Service::MqttIntegration => 11,
        Service::WebsocketIntegration => 12,
        Service::CommandEndpoint => 13,
    };
    assert(args[i].name == enable_flag_name(s));
}

/// Each `--enable-...` switch starts its own service and no other: without
/// `--enable-all`, the command endpoint runs exactly when
/// `--enable-command-endpoint` is given, the WebSocket integration exactly
/// when `--enable-websocket-integration` is given, and so on for every
/// service; `--enable-all` starts them all.
pub proof fn lemma_each_switch_starts_its_own_service(f: RunFlags)
    ensures
        service_enabled(f, Service::DeviceRegistry) == (f.enable_device_registry || f.enable_all),
        service_enabled(f, Service::DeviceState) == (f.enable_device_state || f.enable_all),
        service_enabled(f, Service::UserAuthentication) == (f.enable_user_authentication_service || f.enable_all),
        service_enabled(f, Service::Authentication) == (f.enable_authentication_service || f.enable_all),
        service_enabled(f, Service::ConsoleBackend) == (f.enable_console_backend || f.enable_all),
        service_enabled(f, Service::HttpEndpoint) == (f.enable_http_endpoint || f.enable_all),
        service_enabled(f, Service::WebsocketIntegration) == (f.enable_websocket_integration || f.enable_all),
        service_enabled(f, Service::CommandEndpoint) == (f.enable_command_endpoint || f.enable_all),
        service_enabled(f, Service::MqttEndpoint) == (f.enable_mqtt_endpoint || f.enable_all),
        service_enabled(f, Service::MqttIntegration) == (f.enable_mqtt_integration || f.enable_all),
        service_enabled(f, Service::CoapEndpoint) == (f.enable_coap_endpoint || f.enable_all),
{
}

/// Switching on one service's switch changes whether that service runs and
/// no other: two flag sets that differ only in `--enable-command-endpoint`
/// start the same services apart from the command endpoint.
pub proof fn lemma_command_switch_is_independent(f: RunFlags, g: RunFlags, s: Service)
    requires
        f.enable_all == g.enable_all,
        f.enable_console_backend == g.enable_console_backend,
        f.enable_device_registry == g.enable_device_registry,
        f.enable_device_state == g.enable_device_state,
        f.enable_user_authentication_service == g.enable_user_authentication_service,
        f.enable_authentication_service == g.enable_authentication_service,
        f.enable_coap_endpoint == g.enable_coap_endpoint,
        f.enable_http_endpoint == g.enable_http_endpoint,
        f.enable_mqtt_endpoint == g.enable_mqtt_endpoint,
        f.enable_mqtt_integration == g.enable_mqtt_integration,
        f.enable_websocket_integration == g.enable_websocket_integration,
        s != Service::CommandEndpoint,
    ensures
        service_enabled(f, s) == service_enabled(g, s),
{
}

/// Replaces every `-` by `_`.
pub open spec fn underscored(s: Seq<char>) -> Seq<char> {
    s.map_values(|c: char| if c == '-' { '_' } else { c })
}

/// Each endpoint reads its commands under a consumer group of its own,
/// named after the endpoint: the name of its enabling switch without
/// `enable-`, with `_` for `-` (`mqtt_endpoint` for the MQTT endpoint).
/// So no two endpoints share a group, and none of them splits the command
/// stream with another.
pub proof fn lemma_consumer_groups_are_own(s: Service, t: Service)
    ensures
        spec_consumer_group(s) is Some ==> spec_consumer_group(s) == Some(underscored(enable_flag_name(s).skip(7))),
        spec_consumer_group(s) is Some <==> (s == Service::HttpEndpoint || s == Service::MqttEndpoint
            || s == Service::CoapEndpoint),
        s != t && spec_consumer_group(s) is Some && spec_consumer_group(t) is Some ==>
            spec_consumer_group(s) != spec_consumer_group(t),
{
    reveal_strlit("enable-http-endpoint");
    reveal_strlit("enable-mqtt-endpoint");
    reveal_strlit("enable-coap-endpoint");
    reveal_strlit("http_endpoint");
    reveal_strlit("mqtt_endpoint");
    reveal_strlit("coap_endpoint");
    assert(underscored(enable_flag_name(Service::HttpEndpoint).skip(7)) =~= "http_endpoint"@);
    assert(underscored(enable_flag_name(Service::MqttEndpoint).skip(7)) =~= "mqtt_endpoint"@);
    assert(underscored(enable_flag_name(Service::CoapEndpoint).skip(7)) =~= "coap_endpoint"@);
    assert("http_endpoint"@[0] != "mqtt_endpoint"@[0]);
    assert("http_endpoint"@[0] != "coap_endpoint"@[0]);
    assert("mqtt_endpoint"@[0] != "coap_endpoint"@[0]);
}

/// The services that accept access tokens besides OAuth tokens are exactly
/// the device registry, the device state service, the console backend, the
/// WebSocket integration and the command endpoint; every other service has
/// no such switch, and no service ever has it switched off. No service waits
/// for its Kafka topics. The device registry keeps its data under the
/// database's name, the other services that have an instance under
/// `drogue`.
pub proof fn lemma_service_settings(s: Service, database: Seq<char>)
    ensures
        spec_service_settings(s, database).enable_access_token == Some(true) <==> (
            s == Service::DeviceRegistry || s == Service::DeviceState || s == Service::ConsoleBackend
            || s == Service::WebsocketIntegration || s == Service::CommandEndpoint),
        spec_service_settings(s, database).enable_access_token != Some(false),
        spec_service_settings(s, database).check_kafka_topic_ready != Some(true),
        s == Service::DeviceRegistry ==> spec_service_settings(s, database).instance == Some(database),
        s != Service::DeviceRegistry && spec_service_settings(s, database).instance is Some ==>
            spec_service_settings(s, database).instance == Some("drogue"@),
        spec_service_settings(s, database).instance is Some <==> (s == Service::DeviceRegistry
            || s == Service::DeviceState || s == Service::HttpEndpoint || s == Service::CommandEndpoint
            || s == Service::MqttEndpoint || s == Service::MqttIntegration || s == Service::CoapEndpoint),
{
}

/// The MQTT endpoint and the MQTT integration run on the ntex runtime, the
/// CoAP endpoint on a runtime of its own, and every other service, each an
/// HTTP server, on the shared actix runtime. Only the HTTP endpoint and the
/// WebSocket integration serve the server's certificate over HTTP.
pub proof fn lemma_runtimes_and_http_tls(s: Service)
    ensures
        runtime_of(s) == Runtime::Ntex <==> (s == Service::MqttEndpoint || s == Service::MqttIntegration),
        runtime_of(s) == Runtime::Coap <==> s == Service::CoapEndpoint,
        has_http_server(s) <==> !(s == Service::MqttEndpoint || s == Service::MqttIntegration
            || s == Service::CoapEndpoint),
        serves_http_tls(s) <==> (s == Service::HttpEndpoint || s == Service::WebsocketIntegration),
        serves_http_tls(s) ==> has_http_server(s),
{
}

/// No two services report metrics under the same namespace, and the
/// services that set one are exactly the device registry, the device state
/// service, both authentication services, the WebSocket integration and the
/// command endpoint.
pub proof fn lemma_metrics_namespaces_distinct(s: Service, t: Service)
    ensures
        spec_metrics_namespace(s) is Some <==> (s == Service::DeviceRegistry || s == Service::DeviceState
            || s == Service::UserAuthentication || s == Service::Authentication
            || s == Service::WebsocketIntegration || s == Service::CommandEndpoint),
        s != t && spec_metrics_namespace(s) is Some && spec_metrics_namespace(t) is Some ==>
            spec_metrics_namespace(s) != spec_metrics_namespace(t),
{
    reveal_strlit("device_management_service");
    reveal_strlit("device_state_service");
    reveal_strlit("user_authentication_service");
    reveal_strlit("authentication_service");
    reveal_strlit("websocket_integration");
    reveal_strlit("command_endpoint");
    assert("device_management_service"@.len() == 25);
    assert("device_state_service"@.len() == 20);
    assert("user_authentication_service"@.len() == 27);
    assert("authentication_service"@.len() == 22);
    assert("websocket_integration"@.len() == 21);
    assert("command_endpoint"@.len() == 16);
    if s != t && spec_metrics_namespace(s) is Some && spec_metrics_namespace(t) is Some {
        assert(spec_metrics_namespace(s)->0.len() != spec_metrics_namespace(t)->0.len());
    }
}

} // verus!
