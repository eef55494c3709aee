//! The command line of the server: its global options and the arguments of
//! its `run` subcommand, as data from which the argument parser is built.

use vstd::prelude::*;
use vstd::string::*;

verus! {

/// One command-line argument. `long` and `short` are the flag names as the
/// user types them after `--` and `-`.
pub struct ArgSpec {
    pub name: String,
    pub long: Option<String>,
    pub short: Option<char>,
    pub help: String,
    pub value_name: Option<String>,
    pub takes_value: bool,
    pub global: bool,
    pub multiple: bool,
    pub conflicts_with: Option<String>,
}

/// The mathematical value of an [`ArgSpec`].
pub struct ArgView {
    pub name: Seq<char>,
    pub long: Option<Seq<char>>,
    pub short: Option<char>,
    pub help: Seq<char>,
    pub value_name: Option<Seq<char>>,
    pub takes_value: bool,
    pub global: bool,
    pub multiple: bool,
    pub conflicts_with: Option<Seq<char>>,
}

pub open spec fn opt_view(o: Option<String>) -> Option<Seq<char>> {
    match o {
        Some(s) => Some(s@),
        None => None,
    }
}

impl View for ArgSpec {
    type V = ArgView;

    open spec fn view(&self) -> ArgView {
        ArgView {
            name: self.name@,
            long: opt_view(self.long),
            short: self.short,
            help: self.help@,
            value_name: opt_view(self.value_name),
            takes_value: self.takes_value,
            global: self.global,
            multiple: self.multiple,
            conflicts_with: opt_view(self.conflicts_with),
        }
    }
}

/// A whole command line: the program with its global arguments and the one
/// subcommand under which the services are started.
pub struct CliSpec {
    pub name: String,
    pub about: String,
    pub long_about: Option<String>,
    pub args: Vec<ArgSpec>,
    pub subcommand: String,
    pub subcommand_about: String,
    pub subcommand_args: Vec<ArgSpec>,
}

pub struct CliView {
    pub name: Seq<char>,
    pub about: Seq<char>,
    pub long_about: Option<Seq<char>>,
    pub args: Seq<ArgView>,
    pub subcommand: Seq<char>,
    pub subcommand_about: Seq<char>,
    pub subcommand_args: Seq<ArgView>,
}

pub open spec fn args_view(v: Seq<ArgSpec>) -> Seq<ArgView> {
    v.map_values(|a: ArgSpec| a@)
}

impl View for CliSpec {
    type V = CliView;

    open spec fn view(&self) -> CliView {
        CliView {
            name: self.name@,
            about: self.about@,
            long_about: opt_view(self.long_about),
            args: args_view(self.args@),
            subcommand: self.subcommand@,
            subcommand_about: self.subcommand_about@,
            subcommand_args: args_view(self.subcommand_args@),
        }
    }
}

/// A switch given as `--name`.
pub open spec fn flag_view(name: Seq<char>, help: Seq<char>) -> ArgView {
    ArgView {
        name,
        long: Some(name),
        short: None,
        help,
        value_name: None,
        takes_value: false,
        global: false,
        multiple: false,
        conflicts_with: None,
    }
}

/// An option given as `--name VALUE`.
pub open spec fn valued_view(name: Seq<char>, value_name: Seq<char>, help: Seq<char>) -> ArgView {
    ArgView {
        name,
        long: Some(name),
        short: None,
        help,
        value_name: Some(value_name),
        takes_value: true,
        global: false,
        multiple: false,
        conflicts_with: None,
    }
}

pub(crate) fn flag(name: &str, help: &str) -> (a: ArgSpec)
    ensures
        a@ == flag_view(name@, help@),
{
    ArgSpec {
        name: String::from_str(name),
        long: Some(String::from_str(name)),
        short: None,
        help: String::from_str(help),
        value_name: None,
        takes_value: false,
        global: false,
        multiple: false,
        conflicts_with: None,
    }
}

fn valued(name: &str, value_name: &str, help: &str) -> (a: ArgSpec)
    ensures
        a@ == valued_view(name@, value_name@, help@),
{
    ArgSpec {
        name: String::from_str(name),
        long: Some(String::from_str(name)),
        short: None,
        help: String::from_str(help),
        value_name: Some(String::from_str(value_name)),
        takes_value: true,
        global: false,
        multiple: false,
        conflicts_with: None,
    }
}

/// A switch given only as `-short`.
pub open spec fn short_only_view(name: Seq<char>, short: char, help: Seq<char>) -> ArgView {
    ArgView { long: None, short: Some(short), ..flag_view(name, help) }
}

pub(crate) fn short_only(name: &str, short: char, help: &str) -> (a: ArgSpec)
    ensures
        a@ == short_only_view(name@, short, help@),
{
    ArgSpec {
        name: String::from_str(name),
        long: None,
        short: Some(short),
        help: String::from_str(help),
        value_name: None,
        takes_value: false,
        global: false,
        multiple: false,
        conflicts_with: None,
    }
}

// ---------------------------------------------------------------------------
// The single-process server

pub open spec fn server_global_args_view() -> Seq<ArgView> {
    seq![
        ArgView {
            name: "verbose"@,
            long: Some("verbose"@),
            short: Some('v'),
            help: "Be verbose. Can be used multiple times to increase verbosity."@,
            value_name: None,
            takes_value: false,
            global: true,
            multiple: true,
            conflicts_with: None,
        },
        ArgView {
            name: "quiet"@,
            long: Some("quiet"@),
            short: Some('q'),
            help: "Be quiet."@,
            value_name: None,
            takes_value: false,
            global: true,
            multiple: false,
            conflicts_with: Some("verbose"@),
        },
    ]
}

pub open spec fn server_run_args_view() -> Seq<ArgView> {
    seq![
        flag_view("insecure"@, "Run insecure, like disabling TLS checks"@),
        valued_view("bind-address"@, "ADDRESS"@, "bind to specific network address (default localhost)"@),
        flag_view("enable-all"@, "enable all services"@),
        flag_view("enable-console-backend"@, "enable console backend service"@),
        flag_view("enable-device-registry"@, "enable device management service"@),
        flag_view("enable-device-state"@, "enable device state service"@),
        flag_view("enable-user-authentication-service"@, "enable user authentication service"@),
        flag_view("enable-authentication-service"@, "enable device authentication service"@),
        flag_view("enable-coap-endpoint"@, "enable coap endpoint"@),
        flag_view("enable-http-endpoint"@, "enable http endpoint"@),
        flag_view("enable-mqtt-endpoint"@, "enable mqtt endpoint"@),
        flag_view("enable-mqtt-integration"@, "enable mqtt integration"@),
        flag_view("enable-websocket-integration"@, "enable websocket integration"@),
        flag_view("enable-command-endpoint"@, "enable command endpoint"@),
        valued_view("server-key"@, "FILE"@, "private key to use for service endpoints"@),
        valued_view("server-cert"@, "FILE"@, "public certificate to use for service endpoints"@),
        valued_view("database-host"@, "HOST"@, "hostname of PostgreSQL database"@),
        valued_view("database-port"@, "PORT"@, "port of PostgreSQL database"@),
        valued_view("database-name"@, "NAME"@, "name of database to use"@),
        valued_view("database-user"@, "USER"@, "username to use with database"@),
        valued_view("database-password"@, "PASSWORD"@, "password to use with database"@),
        valued_view("keycloak-url"@, "URL"@, "url for Keycloak"@),
        valued_view("keycloak-realm"@, "REALM"@, "Keycloak realm to use"@),
        valued_view("keycloak-user"@, "USER"@, "Keycloak realm admin user"@),
        valued_view("keycloak-password"@, "PASSWORD"@, "Keycloak realm admin password"@),
        valued_view("kafka-bootstrap-servers"@, "HOSTS"@, "Kafka bootstrap servers"@),
    ]
}

pub open spec fn server_cli_view() -> CliView {
    CliView {
        name: "Drogue Cloud Server"@,
        about: "Running Drogue Cloud in a single process"@,
        long_about: Some("Drogue Server runs all the Drogue Cloud services in a single process, with an external dependency on PostgreSQL, Kafka and Keycloak for storing data, device management and user management"@),
        args: server_global_args_view(),
        subcommand: "run"@,
        subcommand_about: "run server"@,
        subcommand_args: server_run_args_view(),
    }
}

fn server_global_args() -> (v: Vec<ArgSpec>)
    ensures
        args_view(v@) == server_global_args_view(),
{
    let mut v: Vec<ArgSpec> = Vec::new();
    v.push(ArgSpec {
        name: String::from_str("verbose"),
        long: Some(String::from_str("verbose")),
        short: Some('v'),
        help: String::from_str("Be verbose. Can be used multiple times to increase verbosity."),
        value_name: None,
        takes_value: false,
        global: true,
        multiple: true,
        conflicts_with: None,
    });
    v.push(ArgSpec {
        name: String::from_str("quiet"),
        long: Some(String::from_str("quiet")),
        short: Some('q'),
        help: String::from_str("Be quiet."),
        value_name: None,
        takes_value: false,
        global: true,
        multiple: false,
        conflicts_with: Some(String::from_str("verbose")),
    });
    assert(args_view(v@) =~= server_global_args_view());
    v
}

fn server_run_args() -> (v: Vec<ArgSpec>)
    ensures
        args_view(v@) == server_run_args_view(),
{
    let mut v: Vec<ArgSpec> = Vec::new();
    v.push(flag("insecure", "Run insecure, like disabling TLS checks"));
    v.push(valued("bind-address", "ADDRESS", "bind to specific network address (default localhost)"));
    v.push(flag("enable-all", "enable all services"));
    v.push(flag("enable-console-backend", "enable console backend service"));
    v.push(flag("enable-device-registry", "enable device management service"));
    v.push(flag("enable-device-state", "enable device state service"));
    v.push(flag("enable-user-authentication-service", "enable user authentication service"));
    v.push(flag("enable-authentication-service", "enable device authentication service"));
    v.push(flag("enable-coap-endpoint", "enable coap endpoint"));
    v.push(flag("enable-http-endpoint", "enable http endpoint"));
    v.push(flag("enable-mqtt-endpoint", "enable mqtt endpoint"));
    v.push(flag("enable-mqtt-integration", "enable mqtt integration"));
    v.push(flag("enable-websocket-integration", "enable websocket integration"));
    v.push(flag("enable-command-endpoint", "enable command endpoint"));
    v.push(valued("server-key", "FILE", "private key to use for service endpoints"));
    v.push(valued("server-cert", "FILE", "public certificate to use for service endpoints"));
    v.push(valued("database-host", "HOST", "hostname of PostgreSQL database"));
    v.push(valued("database-port", "PORT", "port of PostgreSQL database"));
    v.push(valued("database-name", "NAME", "name of database to use"));
    v.push(valued("database-user", "USER", "username to use with database"));
    v.push(valued("database-password", "PASSWORD", "password to use with database"));
    v.push(valued("keycloak-url", "URL", "url for Keycloak"));
    v.push(valued("keycloak-realm", "REALM", "Keycloak realm to use"));
    v.push(valued("keycloak-user", "USER", "Keycloak realm admin user"));
    v.push(valued("keycloak-password", "PASSWORD", "Keycloak realm admin password"));
    v.push(valued("kafka-bootstrap-servers", "HOSTS", "Kafka bootstrap servers"));
    assert(args_view(v@) =~= server_run_args_view());
    v
}

/// The command line of the single-process server: global `--verbose`
/// (repeatable) and `--quiet` (exclusive with it), and a `run` subcommand
/// whose arguments enable services and configure TLS, the database, Keycloak
/// and Kafka.
pub fn args() -> (cli: CliSpec)
    ensures
        cli@ == server_cli_view(),
{
    CliSpec {
        name: String::from_str("Drogue Cloud Server"),
        about: String::from_str("Running Drogue Cloud in a single process"),
        long_about: Some(String::from_str(
            "Drogue Server runs all the Drogue Cloud services in a single process, with an external dependency on PostgreSQL, Kafka and Keycloak for storing data, device management and user management",
        )),
        args: server_global_args(),
        subcommand: String::from_str("run"),
        subcommand_about: String::from_str("run server"),
        subcommand_args: server_run_args(),
    }
}

/// Every argument of the server's `run` subcommand is given as `--name`
/// under its own name, has no short form, and takes a value exactly when it
/// names one.
pub proof fn lemma_run_args_are_long_options()
    ensures
        forall|i: int| 0 <= i < server_run_args_view().len() ==> {
            let a = #[trigger] server_run_args_view()[i];
            &&& a.long == Some(a.name)
            &&& a.short is None
            &&& (a.takes_value <==> a.value_name is Some)
            &&& !a.global
        },
{
}

/// The global options are `--verbose`/`-v`, which may be repeated, and
/// `--quiet`/`-q`, which cannot be combined with it.
pub proof fn lemma_verbosity_options()
    ensures
        server_global_args_view().len() == 2,
        server_global_args_view()[0].name == "verbose"@,
        server_global_args_view()[0].multiple,
        server_global_args_view()[1].name == "quiet"@,
        server_global_args_view()[1].conflicts_with == Some("verbose"@),
        server_global_args_view()[0].global && server_global_args_view()[1].global,
{
}

/// The `run` subcommand's switches are `--insecure`, `--enable-all` and the
/// `--enable-...` switches of the services; every other argument of it is
/// an option that takes a value. In particular the TLS files are given as
/// `--server-cert FILE` and `--server-key FILE`.
pub proof fn lemma_run_switches_and_options()
    ensures
        forall|i: int| 0 <= i < server_run_args_view().len() ==> (
            #[trigger] server_run_args_view()[i].takes_value <==> !(
                server_run_args_view()[i].name == "insecure"@
                || server_run_args_view()[i].name.take(7) == "enable-"@)),
        exists|i: int| 0 <= i < server_run_args_view().len()
            && #[trigger] server_run_args_view()[i].name == "server-cert"@
            && server_run_args_view()[i].takes_value
            && server_run_args_view()[i].value_name == Some("FILE"@),
        exists|i: int| 0 <= i < server_run_args_view().len()
            && #[trigger] server_run_args_view()[i].name == "server-key"@
            && server_run_args_view()[i].takes_value
            && server_run_args_view()[i].value_name == Some("FILE"@),
{
    let args = server_run_args_view();
    reveal_strlit("enable-");
    reveal_strlit("insecure");
    reveal_strlit("bind-address");
    reveal_strlit("enable-all");
    reveal_strlit("enable-console-backend");
    reveal_strlit("enable-device-registry");
    reveal_strlit("enable-device-state");
    reveal_strlit("enable-user-authentication-service");
    reveal_strlit("enable-authentication-service");
    reveal_strlit("enable-coap-endpoint");
    reveal_strlit("enable-http-endpoint");
    reveal_strlit("enable-mqtt-endpoint");
    reveal_strlit("enable-mqtt-integration");
    reveal_strlit("enable-websocket-integration");
    reveal_strlit("enable-command-endpoint");
    reveal_strlit("server-key");
    reveal_strlit("server-cert");
    reveal_strlit("database-host");
    reveal_strlit("database-port");
    reveal_strlit("database-name");
    reveal_strlit("database-user");
    reveal_strlit("database-password");
    reveal_strlit("keycloak-url");
    reveal_strlit("keycloak-realm");
    reveal_strlit("keycloak-user");
    reveal_strlit("keycloak-password");
    reveal_strlit("kafka-bootstrap-servers");
    assert(args[1].name[0] != "enable-"@[0]);
    assert(args[2].name.take(7) =~= "enable-"@);
    assert(args[3].name.take(7) =~= "enable-"@);
    assert(args[4].name.take(7) =~= "enable-"@);
    assert(args[5].name.take(7) =~= "enable-"@);
    assert(args[6].name.take(7) =~= "enable-"@);
    assert(args[7].name.take(7) =~= "enable-"@);
    assert(args[8].name.take(7) =~= "enable-"@);
    assert(args[9].name.take(7) =~= "enable-"@);
    assert(args[10].name.take(7) =~= "enable-"@);
    assert(args[11].name.take(7) =~= "enable-"@);
    assert(args[12].name.take(7) =~= "enable-"@);
    assert(args[13].name.take(7) =~= "enable-"@);
    assert(args[14].name[0] != "enable-"@[0]);
    assert(args[15].name[0] != "enable-"@[0]);
    assert(args[16].name[0] != "enable-"@[0]);
    assert(args[17].name[0] != "enable-"@[0]);
    assert(args[18].name[0] != "enable-"@[0]);
    assert(args[19].name[0] != "enable-"@[0]);
    assert(args[20].name[0] != "enable-"@[0]);
    assert(args[21].name[0] != "enable-"@[0]);
    assert(args[22].name[0] != "enable-"@[0]);
    assert(args[23].name[0] != "enable-"@[0]);
    assert(args[24].name[0] != "enable-"@[0]);
    assert(args[25].name[0] != "enable-"@[0]);
    assert(args[14].name == "server-key"@);
    assert(args[15].name == "server-cert"@);
}

} // verus!
