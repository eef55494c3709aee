use drogue_server::cli::args;
use drogue_server::launcher::launcher_cli;

#[test]
fn server_cli_header() {
    let cli = args();
    assert_eq!(cli.name, "Drogue Cloud Server");
    assert_eq!(cli.about, "Running Drogue Cloud in a single process");
    assert!(cli.long_about.as_deref().unwrap().starts_with("Drogue Server runs all the Drogue Cloud services"));
    assert_eq!(cli.subcommand, "run");
    assert_eq!(cli.subcommand_about, "run server");
}

#[test]
fn server_global_options() {
    let cli = args();
    assert_eq!(cli.args.len(), 2);
    let verbose = &cli.args[0];
    assert_eq!(verbose.name, "verbose");
    assert_eq!(verbose.long.as_deref(), Some("verbose"));
    assert_eq!(verbose.short, Some('v'));
    assert!(verbose.multiple && verbose.global);
    let quiet = &cli.args[1];
    assert_eq!(quiet.name, "quiet");
    assert_eq!(quiet.short, Some('q'));
    assert_eq!(quiet.conflicts_with.as_deref(), Some("verbose"));
    assert!(!quiet.multiple && quiet.global);
}

#[test]
fn server_run_arguments() {
    let cli = args();
    let names: Vec<&str> = cli.subcommand_args.iter().map(|a| a.name.as_str()).collect();
    assert_eq!(
        names,
        vec![
            "insecure",
            "bind-address",
            "enable-all",
            "enable-console-backend",
            "enable-device-registry",
            "enable-device-state",
            "enable-user-authentication-service",
            "enable-authentication-service",
            "enable-coap-endpoint",
            "enable-http-endpoint",
            "enable-mqtt-endpoint",
            "enable-mqtt-integration",
            "enable-websocket-integration",
            "enable-command-endpoint",
            "server-key",
            "server-cert",
            "database-host",
            "database-port",
            "database-name",
            "database-user",
            "database-password",
            "keycloak-url",
            "keycloak-realm",
            "keycloak-user",
            "keycloak-password",
            "kafka-bootstrap-servers",
        ]
    );
    for a in &cli.subcommand_args {
        assert_eq!(a.long.as_deref(), Some(a.name.as_str()));
        assert_eq!(a.takes_value, a.value_name.is_some());
    }
}

#[test]
fn server_run_argument_details() {
    let cli = args();
    let bind = &cli.subcommand_args[1];
    assert_eq!(bind.value_name.as_deref(), Some("ADDRESS"));
    assert_eq!(bind.help, "bind to specific network address (default localhost)");
    let key = &cli.subcommand_args[14];
    assert_eq!(key.value_name.as_deref(), Some("FILE"));
    assert_eq!(key.help, "private key to use for service endpoints");
    let insecure = &cli.subcommand_args[0];
    assert!(!insecure.takes_value);
    assert_eq!(insecure.help, "Run insecure, like disabling TLS checks");
    let kafka = &cli.subcommand_args[25];
    assert_eq!(kafka.value_name.as_deref(), Some("HOSTS"));
}

#[test]
fn launcher_command_line() {
    let cli = launcher_cli();
    assert_eq!(cli.name, "Drogue Cloud Server");
    assert_eq!(cli.about, "Server for all Drogue Cloud components");
    assert!(cli.long_about.is_none());
    assert!(cli.args.is_empty());
    assert_eq!(cli.subcommand, "run");
    let debug = &cli.subcommand_args[0];
    assert_eq!(debug.name, "debug");
    assert_eq!(debug.short, Some('d'));
    assert!(debug.long.is_none());
    let names: Vec<&str> = cli.subcommand_args.iter().map(|a| a.name.as_str()).collect();
    assert_eq!(names, vec!["debug", "console-backend", "registry", "mqtt-endpoint"]);
    assert_eq!(cli.subcommand_args[2].help, "run the registry backend");
}
