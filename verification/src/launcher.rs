//! The multi-component launcher: a `run` subcommand that starts the device
//! registry, the console backend and the MQTT endpoint, each on a fixed
//! local address, in threads of their own.

use vstd::prelude::*;
use vstd::string::*;
use crate::cli::{ArgSpec, ArgView, CliSpec, CliView, args_view, flag, flag_view, short_only, short_only_view};

verus! {

pub open spec fn launcher_run_args_view() -> Seq<ArgView> {
    seq![
        short_only_view("debug"@, 'd', "print debug information verbosely"@),
        flag_view("console-backend"@, "run the console backend"@),
        flag_view("registry"@, "run the registry backend"@),
        flag_view("mqtt-endpoint"@, "run the mqtt endpoint"@),
    ]
}

pub open spec fn launcher_cli_view() -> CliView {
    CliView {
        name: "Drogue Cloud Server"@,
        about: "Server for all Drogue Cloud components"@,
        long_about: None,
        args: Seq::empty(),
        subcommand: "run"@,
        subcommand_about: "run server"@,
        subcommand_args: launcher_run_args_view(),
    }
}

/// The launcher's command line: `run` with `-d` for debug output and one
/// switch per component.
pub fn launcher_cli() -> (cli: CliSpec)
    ensures
        cli@ == launcher_cli_view(),
{
    let mut run_args: Vec<ArgSpec> = Vec::new();
    run_args.push(short_only("debug", 'd', "print debug information verbosely"));
    run_args.push(flag("console-backend", "run the console backend"));
    run_args.push(flag("registry", "run the registry backend"));
    run_args.push(flag("mqtt-endpoint", "run the mqtt endpoint"));
    assert(args_view(run_args@) =~= launcher_run_args_view());
    let args: Vec<ArgSpec> = Vec::new();
    assert(args_view(args@) =~= Seq::<ArgView>::empty());
    CliSpec {
        name: String::from_str("Drogue Cloud Server"),
        about: String::from_str("Server for all Drogue Cloud components"),
        long_about: None,
        args,
        subcommand: String::from_str("run"),
        subcommand_about: String::from_str("run server"),
        subcommand_args: run_args,
    }
}

/// The switches of the launcher's `run` subcommand.
pub struct LauncherFlags {
    pub debug: bool,
    pub console_backend: bool,
    pub registry: bool,
    pub mqtt_endpoint: bool,
}

/// A component that the launcher can start.
#[derive(Clone, Copy, Debug, PartialEq, Eq, Structural)]
pub enum Component {
    Registry,
    ConsoleBackend,
    MqttEndpoint,
}

/// How one component is started: where it listens and what its thread and
/// runtime are called.
pub struct Launch {
    pub component: Component,
    /// The component's main bind address.
    pub bind_addr: String,
    /// The address of an additional HTTP listener, where the component has one.
    pub http_bind_addr: Option<String>,
    /// The name of the runtime (thread or system) that runs the component.
    pub runtime_name: String,
    /// A line printed before the component starts, where there is one.
    pub start_message: Option<String>,
}

pub struct LaunchView {
    pub component: Component,
    pub bind_addr: Seq<char>,
    pub http_bind_addr: Option<Seq<char>>,
    pub runtime_name: Seq<char>,
    pub start_message: Option<Seq<char>>,
}

impl View for Launch {
    type V = LaunchView;

    open spec fn view(&self) -> LaunchView {
        LaunchView {
            component: self.component,
            bind_addr: self.bind_addr@,
            http_bind_addr: crate::cli::opt_view(self.http_bind_addr),
            runtime_name: self.runtime_name@,
            start_message: crate::cli::opt_view(self.start_message),
        }
    }
}

pub open spec fn spec_launch(c: Component) -> LaunchView {
    match c {
        Component::Registry => LaunchView {
            component: c,
            bind_addr: "127.0.0.1:10001"@,
            http_bind_addr: None,
            runtime_name: "registry"@,
            start_message: Some("Starting REGISTRY"@),
        },
        Component::ConsoleBackend => LaunchView {
            component: c,
            bind_addr: "127.0.0.1:10000"@,
            http_bind_addr: None,
            runtime_name: "console-server"@,
            start_message: None,
        },
        Component::MqttEndpoint => LaunchView {
            component: c,
            bind_addr: "127.0.0.1:10002"@,
            http_bind_addr: Some("127.0.0.1:10003"@),
            runtime_name: "mqtt-endpoint"@,
            start_message: None,
        },
    }
}

/// The components that are started, in order: registry, console backend,
/// MQTT endpoint, each only when its switch is given.
pub open spec fn spec_launches(f: LauncherFlags) -> Seq<LaunchView> {
    (if f.registry { seq![spec_launch(Component::Registry)] } else { Seq::empty() })
        + (if f.console_backend { seq![spec_launch(Component::ConsoleBackend)] } else { Seq::empty() })
        + (if f.mqtt_endpoint { seq![spec_launch(Component::MqttEndpoint)] } else { Seq::empty() })
}

/// How a component is started.
pub fn launch(c: Component) -> (l: Launch)
    ensures
        l@ == spec_launch(c),
{
    match c {
        Component::Registry => Launch {
            component: c,
            bind_addr: String::from_str("127.0.0.1:10001"),
            http_bind_addr: None,
            runtime_name: String::from_str("registry"),
            start_message: Some(String::from_str("Starting REGISTRY")),
        },
        Component::ConsoleBackend => Launch {
            component: c,
            bind_addr: String::from_str("127.0.0.1:10000"),
            http_bind_addr: None,
            runtime_name: String::from_str("console-server"),
            start_message: None,
        },
        Component::MqttEndpoint => Launch {
            component: c,
            bind_addr: String::from_str("127.0.0.1:10002"),
            http_bind_addr: Some(String::from_str("127.0.0.1:10003")),
            runtime_name: String::from_str("mqtt-endpoint"),
            start_message: None,
        },
    }
}

pub open spec fn launches_view(v: Seq<Launch>) -> Seq<LaunchView> {
    v.map_values(|l: Launch| l@)
}

impl LauncherFlags {
    /// The line printed first: whether debug output was asked for.
    pub fn debug_message(&self) -> (m: &'static str)
        ensures
            m@ == (if self.debug { "Printing debug info..."@ } else { "Printing normally..."@ }),
    {
        if self.debug { "Printing debug info..." } else { "Printing normally..." }
    }

    /// The components to start, in the order in which they are started.
    pub fn launches(&self) -> (v: Vec<Launch>)
        ensures
            launches_view(v@) == spec_launches(*self),
    {
        let mut v: Vec<Launch> = Vec::new();
        if self.registry {
            v.push(launch(Component::Registry));
        }
        if self.console_backend {
            v.push(launch(Component::ConsoleBackend));
        }
        if self.mqtt_endpoint {
            v.push(launch(Component::MqttEndpoint));
        }
        assert(launches_view(v@) =~= spec_launches(*self));
        v
    }
}

/// The launched components listen on pairwise distinct local addresses, and
/// the MQTT endpoint's HTTP listener on yet another one; only the registry
/// announces its start.
pub proof fn lemma_launch_addresses_distinct(c: Component, d: Component)
    ensures
        c != d ==> spec_launch(c).bind_addr != spec_launch(d).bind_addr,
        spec_launch(Component::MqttEndpoint).http_bind_addr != Some(spec_launch(c).bind_addr),
        spec_launch(c).http_bind_addr is Some <==> c == Component::MqttEndpoint,
        spec_launch(c).start_message is Some <==> c == Component::Registry,
        spec_launch(c).component == c,
{
    reveal_strlit("127.0.0.1:10000");
    reveal_strlit("127.0.0.1:10001");
    reveal_strlit("127.0.0.1:10002");
    reveal_strlit("127.0.0.1:10003");
    assert("127.0.0.1:10000"@[14] != "127.0.0.1:10001"@[14]);
    assert("127.0.0.1:10000"@[14] != "127.0.0.1:10002"@[14]);
    assert("127.0.0.1:10001"@[14] != "127.0.0.1:10002"@[14]);
    assert("127.0.0.1:10003"@[14] != "127.0.0.1:10000"@[14]);
    assert("127.0.0.1:10003"@[14] != "127.0.0.1:10001"@[14]);
    assert("127.0.0.1:10003"@[14] != "127.0.0.1:10002"@[14]);
}

/// Each switch starts its own component and no other, at most once: the
/// registry runs exactly when `--registry` is given, the console backend
/// exactly when `--console-backend` is, the MQTT endpoint exactly when
/// `--mqtt-endpoint` is; `-d` starts nothing.
pub proof fn lemma_each_switch_launches_its_component(f: LauncherFlags, c: Component)
    ensures
        (exists|i: int| 0 <= i < spec_launches(f).len() && #[trigger] spec_launches(f)[i].component == c) <==> (
            match c {
                Component::Registry => f.registry,
                Component::ConsoleBackend => f.console_backend,
                Component::MqttEndpoint => f.mqtt_endpoint,
            }),
        spec_launches(f).len() == (if f.registry { 1int } else { 0int })
            + (if f.console_backend { 1int } else { 0int }) + (if f.mqtt_endpoint { 1int } else { 0int }),
        forall|i: int| 0 <= i < spec_launches(f).len() ==>
            #[trigger] spec_launches(f)[i] == spec_launch(spec_launches(f)[i].component),
{
    let a = if f.registry { seq![spec_launch(Component::Registry)] } else { Seq::<LaunchView>::empty() };
    let b = if f.console_backend { seq![spec_launch(Component::ConsoleBackend)] } else { Seq::<LaunchView>::empty() };
    let m = if f.mqtt_endpoint { seq![spec_launch(Component::MqttEndpoint)] } else { Seq::<LaunchView>::empty() };
    let l = spec_launches(f);
    assert(l == a + b + m);
    let want = match c {
        Component::Registry => f.registry,
        Component::ConsoleBackend => f.console_backend,
        Component::MqttEndpoint => f.mqtt_endpoint,
    };
    if want {
        let i: int = match c {
            Component::Registry => 0,
            Component::ConsoleBackend => a.len() as int,
            Component::MqttEndpoint => (a.len() + b.len()) as int,
        };
        assert(l[i].component == c);
    }
    assert forall|i: int| 0 <= i < l.len() implies #[trigger] l[i] == spec_launch(l[i].component) by {
        if i < a.len() {
            assert(l[i] == a[i]);
        } else if i < a.len() + b.len() {
            assert(l[i] == b[i - a.len()]);
        } else {
            assert(l[i] == m[i - a.len() - b.len()]);
        }
    }
    if exists|i: int| 0 <= i < l.len() && #[trigger] l[i].component == c {
        let i = choose|i: int| 0 <= i < l.len() && #[trigger] l[i].component == c;
        if i < a.len() {
            assert(l[i] == a[i]);
        } else if i < a.len() + b.len() {
            assert(l[i] == b[i - a.len()]);
        } else {
            assert(l[i] == m[i - a.len() - b.len()]);
        }
    }
}

} // verus!
